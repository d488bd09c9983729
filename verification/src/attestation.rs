//! What the attestation primitive hands back, and what it means: a report
//! or a quote on success, one of three failures otherwise.

use vstd::prelude::*;
use crate::constants::{REPORT_SIZE, TDX_UUID_SIZE};
use crate::error::QuoteGeneratorError;

verus! {

/// How a request to the attestation primitive ended. A failure keeps the
/// primitive's own code, which is carried for diagnostics and never read.
#[derive(Debug, Clone, Copy)]
pub enum AttestStatus {
    Success,
    Failure { code: u32 },
}

/// A report of the platform: `REPORT_SIZE` bytes that are shown on request
/// and never interpreted.
#[derive(Debug, Clone, Copy)]
pub struct Report {
    pub d: [u8; REPORT_SIZE],
}

impl View for Report {
    type V = Seq<u8>;

    open spec fn view(&self) -> Seq<u8> {
        self.d@
    }
}

/// The identifier of an attestation key. All zeros selects no key, and the
/// primitive then signs with its default key.
#[derive(Debug, Clone, Copy)]
pub struct AttestationKeyId {
    pub d: [u8; TDX_UUID_SIZE],
}

impl View for AttestationKeyId {
    type V = Seq<u8>;

    open spec fn view(&self) -> Seq<u8> {
        self.d@
    }
}

/// The key identifier that selects no key.
pub open spec fn unselected_key_id() -> Seq<u8> {
    Seq::new(TDX_UUID_SIZE as nat, |i: int| 0u8)
}

impl Default for AttestationKeyId {
    fn default() -> (key_id: Self)
        ensures
            key_id@ == unselected_key_id(),
    {
        let key_id = AttestationKeyId { d: [0u8; TDX_UUID_SIZE] };
        assert(key_id@ =~= unselected_key_id());
        key_id
    }
}

/// What a report request amounts to: the report that came back with a
/// success, and a failure of report generation with anything else.
pub open spec fn report_outcome<R>(status: AttestStatus, report: R) -> Result<
    R,
    QuoteGeneratorError,
> {
    match status {
        AttestStatus::Success => Ok(report),
        AttestStatus::Failure { .. } => Err(QuoteGeneratorError::TdxReportFailed),
    }
}

/// What a quote request amounts to: the quote that came back with a
/// success, an empty quote where a success came back without one, and a
/// failure of quote generation with anything else.
pub open spec fn quote_outcome<Q>(status: AttestStatus, quote: Option<Q>) -> Result<
    Q,
    QuoteGeneratorError,
> {
    match status {
        AttestStatus::Success => match quote {
            Some(q) => Ok(q),
            None => Err(QuoteGeneratorError::TdxQuoteEmpty),
        },
        AttestStatus::Failure { .. } => Err(QuoteGeneratorError::TdxQuoteFailed),
    }
}

/// A quote comes out exactly of a success with a payload. A success without
/// one is reported as an empty quote and never as a failed request, and a
/// failed request is reported as such whatever payload came with it.
pub proof fn lemma_quote_outcome_kinds<Q>(status: AttestStatus, quote: Option<Q>)
    ensures
        quote_outcome(status, quote) is Ok <==> status is Success && quote is Some,
        quote_outcome(status, quote) is Ok ==> quote_outcome(status, quote) == Ok::<
            Q,
            QuoteGeneratorError,
        >(quote->Some_0),
        quote_outcome(status, quote) == Err::<Q, QuoteGeneratorError>(
            QuoteGeneratorError::TdxQuoteEmpty,
        ) <==> status is Success && quote is None,
        quote_outcome(status, quote) == Err::<Q, QuoteGeneratorError>(
            QuoteGeneratorError::TdxQuoteFailed,
        ) <==> status is Failure,
        QuoteGeneratorError::TdxQuoteEmpty != QuoteGeneratorError::TdxQuoteFailed,
{
}

/// The report of a request that ended with `status` and left `report` in
/// the buffer: the buffer on success, an error otherwise.
pub fn create_tdx_report(status: AttestStatus, report: Report) -> (created: Result<
    Report,
    QuoteGeneratorError,
>)
    ensures
        created == report_outcome(status, report),
{
    match status {
        AttestStatus::Success => Ok(report),
        AttestStatus::Failure { .. } => Err(QuoteGeneratorError::TdxReportFailed),
    }
}

/// The quote of a request that ended with `status` and handed back `quote`.
/// The bytes are passed on as they came.
pub fn create_quote(status: AttestStatus, quote: Option<Vec<u8>>) -> (created: Result<
    Vec<u8>,
    QuoteGeneratorError,
>)
    ensures
        created == quote_outcome(status, quote),
{
    match status {
        AttestStatus::Success => match quote {
            Some(q) => Ok(q),
            None => Err(QuoteGeneratorError::TdxQuoteEmpty),
        },
        AttestStatus::Failure { .. } => Err(QuoteGeneratorError::TdxQuoteFailed),
    }
}

} // verus!
