//! Where the quote goes: the name of the file that receives it.

use vstd::prelude::*;

verus! {

/// How the file of the quote is named.
#[derive(Debug, Clone, Copy, PartialEq, Eq)]
pub enum OutputNaming {
    /// Always `quote.dat`, which every run overwrites.
    Fixed,
    /// `quote-`, the argument as it was typed, and `.dat`: runs on different
    /// arguments leave different files. The argument is not cleaned of
    /// characters that mean something in a path.
    FromInput,
}

/// The file name that `naming` gives a quote made for the argument `input`.
pub open spec fn spec_quote_file_name(naming: OutputNaming, input: Seq<char>) -> Seq<char> {
    match naming {
        OutputNaming::Fixed => "quote.dat"@,
        OutputNaming::FromInput => "quote-"@ + input + ".dat"@,
    }
}

/// The name of the file that receives the quote made for `input`.
pub fn quote_file_name(naming: OutputNaming, input: &str) -> (name: String)
    ensures
        name@ == spec_quote_file_name(naming, input@),
{
    match naming {
        OutputNaming::Fixed => String::from_str("quote.dat"),
        OutputNaming::FromInput => {
            let mut name = String::from_str("quote-");
            name.append(input);
            name.append(".dat");
            name
        },
    }
}

} // verus!
