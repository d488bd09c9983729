//! From the command line to report data: one argument, at most
//! `REPORT_DATA_SIZE` bytes long, padded with zeros on the right.

use core::array::TryFromSliceError;
use vstd::prelude::*;
use crate::constants::REPORT_DATA_SIZE;
use crate::error::QuoteGeneratorError;

verus! {

/// The caller-supplied context that an attestation binds: always exactly
/// `REPORT_DATA_SIZE` bytes.
#[derive(Debug, Clone, Copy)]
pub struct ReportData {
    pub d: [u8; REPORT_DATA_SIZE],
}

impl View for ReportData {
    type V = Seq<u8>;

    open spec fn view(&self) -> Seq<u8> {
        self.d@
    }
}

/// The number of arguments on a command line of `argc` words, the first of
/// which names the program.
pub open spec fn supplied_arguments(argc: nat) -> nat {
    if argc == 0 {
        0
    } else {
        (argc - 1) as nat
    }
}

/// `input`, followed by as many zero bytes as it takes to fill report data.
pub open spec fn zero_padded(input: Seq<u8>) -> Seq<u8>
    recommends
        input.len() <= REPORT_DATA_SIZE,
{
    Seq::new(
        REPORT_DATA_SIZE as nat,
        |i: int|
            if i < input.len() {
                input[i]
            } else {
                0u8
            },
    )
}

/// Padding keeps the input in front, fills the rest with zeros and always
/// yields `REPORT_DATA_SIZE` bytes; an input of full length is left as it is.
pub proof fn lemma_zero_padded(input: Seq<u8>)
    requires
        input.len() <= REPORT_DATA_SIZE,
    ensures
        zero_padded(input).len() == REPORT_DATA_SIZE,
        zero_padded(input).subrange(0, input.len() as int) == input,
        forall|i: int| input.len() <= i < REPORT_DATA_SIZE ==> zero_padded(input)[i] == 0u8,
        input.len() == REPORT_DATA_SIZE ==> zero_padded(input) == input,
{
    assert(zero_padded(input).subrange(0, input.len() as int) =~= input);
    if input.len() == REPORT_DATA_SIZE {
        assert(zero_padded(input) =~= input);
    }
}

/// The one argument of a command line `args`, whose first word names the
/// program. Any other number of arguments is a usage error that carries the
/// number found.
pub fn report_data_argument(args: &Vec<String>) -> (found: Result<&String, QuoteGeneratorError>)
    ensures
        args@.len() == 2 ==> found == Ok::<&String, QuoteGeneratorError>(&args@[1]),
        args@.len() != 2 ==> found == Err::<&String, QuoteGeneratorError>(
            QuoteGeneratorError::InvalidUsage { actual: supplied_arguments(args@.len()) as usize },
        ),
{
    let argc: usize = args.len();
    if argc == 2 {
        Ok(&args[1])
    } else if argc == 0 {
        Err(QuoteGeneratorError::InvalidUsage { actual: 0 })
    } else {
        Err(QuoteGeneratorError::InvalidUsage { actual: argc - 1 })
    }
}

/// Fits `input` into a buffer of `REPORT_DATA_SIZE` bytes: the input in
/// front, zeros behind it. An input that is too long is refused with its
/// length and the limit; an empty one gives a buffer of zeros.
pub fn normalize_report_data(input: &[u8]) -> (normalized: Result<
    [u8; REPORT_DATA_SIZE],
    QuoteGeneratorError,
>)
    ensures
        input@.len() <= REPORT_DATA_SIZE ==> (normalized matches Ok(buffer) && buffer@
            == zero_padded(input@)),
        input@.len() > REPORT_DATA_SIZE ==> normalized == Err::<
            [u8; REPORT_DATA_SIZE],
            QuoteGeneratorError,
        >(
            QuoteGeneratorError::ReportDataTooLarge {
                max: REPORT_DATA_SIZE,
                actual: input@.len() as usize,
            },
        ),
{
    let len: usize = input.len();
    if len > REPORT_DATA_SIZE {
        return Err(QuoteGeneratorError::ReportDataTooLarge { max: REPORT_DATA_SIZE, actual: len });
    }
    let mut buffer = [0u8; REPORT_DATA_SIZE];
    let mut i: usize = 0;
    while i < len
        invariant
            len == input@.len(),
            len <= REPORT_DATA_SIZE,
            i <= len,
            forall|j: int| 0 <= j < i ==> buffer@[j] == input@[j],
            forall|j: int| i <= j < REPORT_DATA_SIZE ==> buffer@[j] == 0u8,
        decreases len - i,
    {
        buffer[i] = input[i];
        i += 1;
    }
    assert(buffer@ =~= zero_padded(input@));
    Ok(buffer)
}

/// `<[u8; N]>::try_from(&[u8])` of the standard library, for report data. It
/// copies a slice of exactly `REPORT_DATA_SIZE` bytes into an array and
/// refuses a slice of any other length.
#[verifier::external_body]
fn array_from_slice(bytes: &[u8]) -> (converted: Result<[u8; REPORT_DATA_SIZE], TryFromSliceError>)
    ensures
        match converted {
            Ok(array) => bytes@.len() == REPORT_DATA_SIZE && array@ == bytes@,
            Err(_) => bytes@.len() != REPORT_DATA_SIZE,
        },
{
    <[u8; REPORT_DATA_SIZE]>::try_from(bytes)
}

/// Report data made of `input_bytes`, which must be exactly
/// `REPORT_DATA_SIZE` bytes long: a slice of any other length is a
/// conversion error. Nothing is padded here.
pub fn create_report_data(input_bytes: &[u8]) -> (created: Result<ReportData, QuoteGeneratorError>)
    ensures
        input_bytes@.len() == REPORT_DATA_SIZE ==> (created matches Ok(report_data)
            && report_data@ == input_bytes@),
        input_bytes@.len() != REPORT_DATA_SIZE ==> created matches Err(
            QuoteGeneratorError::ReportDataConversion(_),
        ),
{
    match array_from_slice(input_bytes) {
        Ok(d) => Ok(ReportData { d }),
        Err(source) => Err(QuoteGeneratorError::from(source)),
    }
}

} // verus!
