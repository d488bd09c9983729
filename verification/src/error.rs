//! The failures of a quote generation run.

use vstd::prelude::*;
use vstd::std_specs::convert::FromSpecImpl;

verus! {

/// `core::array::TryFromSliceError`, the error of a failed conversion from
/// a slice to an array. A value of it is carried through unread.
#[verifier::external_type_specification]
#[verifier::external_body]
pub struct ExTryFromSliceError(core::array::TryFromSliceError);

/// `std::io::Error`, the error of a failed I/O operation. A value of it is
/// carried through unread.
#[verifier::external_type_specification]
#[verifier::external_body]
pub struct ExIoError(std::io::Error);

/// Every way in which a run can fail. Each failure ends the run: none is
/// retried or recovered from.
#[derive(Debug)]
pub enum QuoteGeneratorError {
    /// The command line did not hold exactly one argument; `actual` is the
    /// number of arguments that it held.
    InvalidUsage { actual: usize },
    /// The argument has more bytes than report data can hold.
    ReportDataTooLarge { max: usize, actual: usize },
    /// A byte slice of the wrong length was offered as report data.
    ReportDataConversion(core::array::TryFromSliceError),
    /// The attestation primitive did not produce a report.
    TdxReportFailed,
    /// The attestation primitive did not produce a quote.
    TdxQuoteFailed,
    /// The attestation primitive reported success and handed back no quote.
    TdxQuoteEmpty,
    /// The quote could not be written to its file.
    WriteQuoteFile(std::io::Error),
}

impl From<core::array::TryFromSliceError> for QuoteGeneratorError {
    fn from(source: core::array::TryFromSliceError) -> (error: Self) {
        QuoteGeneratorError::ReportDataConversion(source)
    }
}

impl FromSpecImpl<core::array::TryFromSliceError> for QuoteGeneratorError {
    open spec fn obeys_from_spec() -> bool {
        true
    }

    open spec fn from_spec(source: core::array::TryFromSliceError) -> Self {
        QuoteGeneratorError::ReportDataConversion(source)
    }
}

impl From<std::io::Error> for QuoteGeneratorError {
    fn from(source: std::io::Error) -> (error: Self) {
        QuoteGeneratorError::WriteQuoteFile(source)
    }
}

impl FromSpecImpl<std::io::Error> for QuoteGeneratorError {
    open spec fn obeys_from_spec() -> bool {
        true
    }

    open spec fn from_spec(source: std::io::Error) -> Self {
        QuoteGeneratorError::WriteQuoteFile(source)
    }
}

} // verus!
