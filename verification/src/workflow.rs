//! A run, one decision at a time.
//!
//! The library neither talks to the attestation primitive nor writes files.
//! It says what is to be done next, as a [`Step`], and is told how that
//! went: `begin` reads the command line, and each step has one method that
//! takes what came back and gives the step after it. A step can only be had
//! from the one before it, so a quote is never requested for report data
//! that was not normalized, and nothing is written but a quote that the
//! primitive handed back.

use vstd::prelude::*;
use vstd::utf8::encode_utf8;
use crate::attestation::{
    create_quote, create_tdx_report, quote_outcome, report_outcome, unselected_key_id,
    AttestStatus, AttestationKeyId, Report,
};
use crate::constants::REPORT_DATA_SIZE;
use crate::error::QuoteGeneratorError;
use crate::output::{quote_file_name, spec_quote_file_name, OutputNaming};
use crate::report_data::{
    create_report_data, normalize_report_data, report_data_argument, supplied_arguments,
    zero_padded, ReportData,
};

verus! {

/// Whether a report is requested before the quote, and what a failure of
/// that request means. The quote does not depend on the report: the
/// primitive derives one of its own for each quote.
#[derive(Debug, Clone, Copy, PartialEq, Eq)]
pub enum ReportPolicy {
    /// No report is requested.
    Skip,
    /// A report is requested for display. The quote is requested whatever
    /// becomes of it.
    Diagnostic,
    /// A report is requested, and the run ends if none comes back.
    Required,
}

/// What is settled before a run starts.
#[derive(Debug, Clone, Copy)]
pub struct Config {
    pub report: ReportPolicy,
    pub naming: OutputNaming,
}

/// A report is to be requested for `report_data`.
#[derive(Debug)]
pub struct ReportStep {
    required: bool,
    report_data: ReportData,
    path: String,
}

/// A quote is to be requested for `report_data`, with `key_id` to receive
/// the identifier of the key that signed it.
#[derive(Debug)]
pub struct QuoteStep {
    report_data: ReportData,
    key_id: AttestationKeyId,
    path: String,
    report: Option<Result<Report, QuoteGeneratorError>>,
}

/// `quote` is to be written to the file `path`.
#[derive(Debug)]
pub struct WriteStep {
    path: String,
    quote: Vec<u8>,
}

/// What a run does next.
#[derive(Debug)]
pub enum Step {
    Report(ReportStep),
    Quote(QuoteStep),
    Write(WriteStep),
    /// The run is over: the quote is in the file of this name, or the run
    /// has failed, and nothing more is to be done.
    Done(Result<String, QuoteGeneratorError>),
}

/// A report request as the contracts see it.
pub struct ReportStepView {
    /// Whether the run ends if no report comes back.
    pub required: bool,
    pub report_data: Seq<u8>,
    /// The file that the quote will go to.
    pub path: Seq<char>,
}

/// A quote request as the contracts see it.
pub struct QuoteStepView {
    pub report_data: Seq<u8>,
    pub key_id: Seq<u8>,
    /// The file that the quote will go to.
    pub path: Seq<char>,
    /// What became of the report request, where there was one.
    pub report: Option<Result<Seq<u8>, QuoteGeneratorError>>,
}

/// A write as the contracts see it.
pub struct WriteStepView {
    pub path: Seq<char>,
    pub quote: Seq<u8>,
}

/// A step as the contracts see it.
pub enum StepView {
    Report(ReportStepView),
    Quote(QuoteStepView),
    Write(WriteStepView),
    Done(Result<Seq<char>, QuoteGeneratorError>),
}

/// A run that has failed with `error`.
pub open spec fn failed(error: QuoteGeneratorError) -> StepView {
    StepView::Done(Err(error))
}

/// What became of a report request, with the report as its bytes.
pub open spec fn report_view(report: Option<Result<Report, QuoteGeneratorError>>) -> Option<
    Result<Seq<u8>, QuoteGeneratorError>,
> {
    match report {
        None => None,
        Some(Ok(r)) => Some(Ok(r@)),
        Some(Err(e)) => Some(Err(e)),
    }
}

impl View for ReportStep {
    type V = ReportStepView;

    closed spec fn view(&self) -> ReportStepView {
        ReportStepView {
            required: self.required,
            report_data: self.report_data@,
            path: self.path@,
        }
    }
}

impl View for QuoteStep {
    type V = QuoteStepView;

    closed spec fn view(&self) -> QuoteStepView {
        QuoteStepView {
            report_data: self.report_data@,
            key_id: self.key_id@,
            path: self.path@,
            report: report_view(self.report),
        }
    }
}

impl View for WriteStep {
    type V = WriteStepView;

    closed spec fn view(&self) -> WriteStepView {
        WriteStepView { path: self.path@, quote: self.quote@ }
    }
}

impl View for Step {
    type V = StepView;

    open spec fn view(&self) -> StepView {
        match *self {
            Step::Report(step) => StepView::Report(step@),
            Step::Quote(step) => StepView::Quote(step@),
            Step::Write(step) => StepView::Write(step@),
            Step::Done(Ok(path)) => StepView::Done(Ok(path@)),
            Step::Done(Err(error)) => failed(error),
        }
    }
}

/// The request of a quote for `report_data`, with no key selected.
pub open spec fn quote_request(
    report_data: Seq<u8>,
    path: Seq<char>,
    report: Option<Result<Seq<u8>, QuoteGeneratorError>>,
) -> StepView {
    StepView::Quote(QuoteStepView { report_data, key_id: unselected_key_id(), path, report })
}

/// Whether the command line `args` holds one argument that fits into
/// report data.
pub open spec fn accepted(args: Seq<String>) -> bool {
    args.len() == 2 && encode_utf8(args[1]@).len() <= REPORT_DATA_SIZE
}

/// The first step of a run on the command line `args`, whose first word
/// names the program.
///
/// A command line without exactly one argument is a usage error, and an
/// argument of more than `REPORT_DATA_SIZE` bytes is too large. Otherwise
/// the report data is the argument's bytes, padded with zeros, and the
/// first request is for a report or, where none is wanted, for the quote.
pub open spec fn spec_begin(config: Config, args: Seq<String>) -> StepView {
    if args.len() != 2 {
        failed(
            QuoteGeneratorError::InvalidUsage { actual: supplied_arguments(args.len()) as usize },
        )
    } else if encode_utf8(args[1]@).len() > REPORT_DATA_SIZE {
        failed(
            QuoteGeneratorError::ReportDataTooLarge {
                max: REPORT_DATA_SIZE,
                actual: encode_utf8(args[1]@).len() as usize,
            },
        )
    } else {
        let report_data = zero_padded(encode_utf8(args[1]@));
        let path = spec_quote_file_name(config.naming, args[1]@);
        match config.report {
            ReportPolicy::Skip => quote_request(report_data, path, None),
            ReportPolicy::Diagnostic => StepView::Report(
                ReportStepView { required: false, report_data, path },
            ),
            ReportPolicy::Required => StepView::Report(
                ReportStepView { required: true, report_data, path },
            ),
        }
    }
}

/// The step after a report request that ended with `status` and left
/// `report` in the buffer: the quote request for the same report data,
/// unless the report was required and did not come.
pub open spec fn spec_report_returned(
    step: ReportStepView,
    status: AttestStatus,
    report: Seq<u8>,
) -> StepView {
    match report_outcome(status, report) {
        Ok(r) => quote_request(step.report_data, step.path, Some(Ok(r))),
        Err(e) => if step.required {
            failed(e)
        } else {
            quote_request(step.report_data, step.path, Some(Err(e)))
        },
    }
}

/// The step after a quote request that ended with `status` and handed back
/// `quote`: the quote is written as it came, and without one the run has
/// failed.
pub open spec fn spec_quote_returned(
    step: QuoteStepView,
    status: AttestStatus,
    quote: Option<Seq<u8>>,
) -> StepView {
    match quote_outcome(status, quote) {
        Ok(q) => StepView::Write(WriteStepView { path: step.path, quote: q }),
        Err(e) => failed(e),
    }
}

/// The end of the run once the write has ended with `result`: the name of
/// the file, or the error of the write.
pub open spec fn spec_write_finished(
    step: WriteStepView,
    result: Result<(), std::io::Error>,
) -> StepView {
    match result {
        Ok(_) => StepView::Done(Ok(step.path)),
        Err(e) => failed(QuoteGeneratorError::WriteQuoteFile(e)),
    }
}

/// Starts a run on the command line `args`, whose first word names the
/// program.
pub fn begin(config: Config, args: &Vec<String>) -> (step: Step)
    ensures
        step@ == spec_begin(config, args@),
{
    let input = match report_data_argument(args) {
        Ok(input) => input,
        Err(error) => {
            return Step::Done(Err(error));
        },
    };
    let buffer = match normalize_report_data(input.as_str().as_bytes()) {
        Ok(buffer) => buffer,
        Err(error) => {
            return Step::Done(Err(error));
        },
    };
    let report_data = match create_report_data(&buffer) {
        Ok(report_data) => report_data,
        Err(error) => {
            return Step::Done(Err(error));
        },
    };
    let path = quote_file_name(config.naming, input.as_str());
    match config.report {
        ReportPolicy::Skip => Step::Quote(
            QuoteStep { report_data, key_id: AttestationKeyId::default(), path, report: None },
        ),
        ReportPolicy::Diagnostic => Step::Report(ReportStep { required: false, report_data, path }),
        ReportPolicy::Required => Step::Report(ReportStep { required: true, report_data, path }),
    }
}

impl ReportStep {
    /// The report data to request the report for.
    pub fn report_data(&self) -> (report_data: &ReportData)
        ensures
            report_data@ == self@.report_data,
    {
        &self.report_data
    }

    /// Takes the end of the report request, `status`, and the buffer that
    /// the primitive was given for the report, and gives the next step.
    pub fn report_returned(self, status: AttestStatus, report: Report) -> (next: Step)
        ensures
            next@ == spec_report_returned(self@, status, report@),
    {
        let key_id = AttestationKeyId::default();
        match create_tdx_report(status, report) {
            Ok(report) => Step::Quote(
                QuoteStep {
                    report_data: self.report_data,
                    key_id,
                    path: self.path,
                    report: Some(Ok(report)),
                },
            ),
            Err(error) => if self.required {
                Step::Done(Err(error))
            } else {
                Step::Quote(
                    QuoteStep {
                        report_data: self.report_data,
                        key_id,
                        path: self.path,
                        report: Some(Err(error)),
                    },
                )
            },
        }
    }
}

impl QuoteStep {
    /// The report data to request the quote for.
    pub fn report_data(&self) -> (report_data: &ReportData)
        ensures
            report_data@ == self@.report_data,
    {
        &self.report_data
    }

    /// The key identifier to hand to the primitive.
    pub fn key_id(&self) -> (key_id: &AttestationKeyId)
        ensures
            key_id@ == self@.key_id,
    {
        &self.key_id
    }

    /// What became of the report request, where there was one. It is kept
    /// to be shown and decides nothing.
    pub fn report(&self) -> (report: &Option<Result<Report, QuoteGeneratorError>>)
        ensures
            report_view(*report) == self@.report,
    {
        &self.report
    }

    /// Takes the end of the quote request, `status`, and the quote that the
    /// primitive handed back, if it did, and gives the next step.
    pub fn quote_returned(self, status: AttestStatus, quote: Option<Vec<u8>>) -> (next: Step)
        ensures
            next@ == spec_quote_returned(
                self@,
                status,
                match quote {
                    Some(q) => Some(q@),
                    None => None,
                },
            ),
    {
        match create_quote(status, quote) {
            Ok(quote) => Step::Write(WriteStep { path: self.path, quote }),
            Err(error) => Step::Done(Err(error)),
        }
    }
}

impl WriteStep {
    /// The name of the file to write.
    pub fn path(&self) -> (path: &str)
        ensures
            path@ == self@.path,
    {
        self.path.as_str()
    }

    /// The bytes to write.
    pub fn quote(&self) -> (quote: &[u8])
        ensures
            quote@ == self@.quote,
    {
        self.quote.as_slice()
    }

    /// Takes the end of the write and ends the run: with the name of the
    /// file that now holds the quote, or with the error of the write.
    pub fn write_finished(self, result: Result<(), std::io::Error>) -> (next: Step)
        ensures
            next@ == spec_write_finished(self@, result),
    {
        match result {
            Ok(_) => Step::Done(Ok(self.path)),
            Err(source) => Step::Done(Err(QuoteGeneratorError::from(source))),
        }
    }
}

/// What comes back in the course of a run: the end of each request that
/// the run may come to.
pub struct Answers {
    pub report_status: AttestStatus,
    pub report: Seq<u8>,
    pub quote_status: AttestStatus,
    pub quote: Option<Seq<u8>>,
    pub written: Result<(), std::io::Error>,
}

/// The step after `step` when its request is answered from `answers`. A
/// run that is over stays as it is.
pub open spec fn spec_advance(step: StepView, answers: Answers) -> StepView {
    match step {
        StepView::Report(request) => spec_report_returned(
            request,
            answers.report_status,
            answers.report,
        ),
        StepView::Quote(request) => spec_quote_returned(
            request,
            answers.quote_status,
            answers.quote,
        ),
        StepView::Write(request) => spec_write_finished(request, answers.written),
        StepView::Done(end) => step,
    }
}

/// The step that a run on `args` has come to after `requests` of its
/// requests were answered from `answers`.
pub open spec fn spec_run(config: Config, args: Seq<String>, answers: Answers, requests: nat) -> StepView
    decreases requests,
{
    if requests == 0 {
        spec_begin(config, args)
    } else {
        spec_advance(spec_run(config, args, answers, (requests - 1) as nat), answers)
    }
}

/// Once the command line is accepted, a quote is requested for its padded
/// argument with no key selected: at once where no report is wanted, and
/// else after the report request, whatever came back from it. The one
/// exception is a required report that did not come.
pub proof fn lemma_quote_is_requested(
    config: Config,
    args: Seq<String>,
    status: AttestStatus,
    report: Seq<u8>,
)
    requires
        accepted(args),
        config.report is Required ==> status is Success,
    ensures
        match spec_begin(config, args) {
            StepView::Quote(quote) => {
                &&& config.report is Skip
                &&& quote.report_data == zero_padded(encode_utf8(args[1]@))
                &&& quote.key_id == unselected_key_id()
            },
            StepView::Report(first) => {
                &&& !(config.report is Skip)
                &&& first.report_data == zero_padded(encode_utf8(args[1]@))
                &&& spec_report_returned(first, status, report) matches StepView::Quote(quote)
                &&& quote.report_data == zero_padded(encode_utf8(args[1]@))
                &&& quote.key_id == unselected_key_id()
                &&& quote.path == first.path
            },
            _ => false,
        },
{
}

/// A write follows a quote request exactly when the primitive reported
/// success and handed back a quote. What is then written is that quote,
/// byte for byte, to the file that was named when the run began. In every
/// other case the run has failed and nothing is written.
pub proof fn lemma_quote_is_written_unchanged(
    step: QuoteStepView,
    status: AttestStatus,
    quote: Option<Seq<u8>>,
)
    ensures
        status is Success && quote is Some ==> spec_quote_returned(step, status, quote)
            == StepView::Write(WriteStepView { path: step.path, quote: quote->Some_0 }),
        !(status is Success && quote is Some) ==> spec_quote_returned(step, status, quote)
            == failed(quote_outcome(status, quote)->Err_0),
{
}

/// The number of requests that a run on an accepted command line makes
/// before it comes to the write.
pub open spec fn requests_before_write(config: Config) -> nat {
    if config.report is Skip {
        1
    } else {
        2
    }
}

/// A run is over after three answers at most, and it ends with the first
/// failure on its way: a wrong number of arguments, an argument that is too
/// large, a required report that did not come, a quote request that
/// failed, a quote request that succeeded without a quote, a write that
/// failed. Without any of these it ends with the name of the file, and
/// what was handed over to be written there is the quote as it came back.
pub proof fn lemma_run_outcome(config: Config, args: Seq<String>, answers: Answers)
    ensures
        spec_run(config, args, answers, 3) == StepView::Done(
            if args.len() != 2 {
                Err(
                    QuoteGeneratorError::InvalidUsage {
                        actual: supplied_arguments(args.len()) as usize,
                    },
                )
            } else if encode_utf8(args[1]@).len() > REPORT_DATA_SIZE {
                Err(
                    QuoteGeneratorError::ReportDataTooLarge {
                        max: REPORT_DATA_SIZE,
                        actual: encode_utf8(args[1]@).len() as usize,
                    },
                )
            } else if config.report is Required && answers.report_status is Failure {
                Err(QuoteGeneratorError::TdxReportFailed)
            } else if answers.quote_status is Failure {
                Err(QuoteGeneratorError::TdxQuoteFailed)
            } else if answers.quote is None {
                Err(QuoteGeneratorError::TdxQuoteEmpty)
            } else {
                match answers.written {
                    Ok(_) => Ok(spec_quote_file_name(config.naming, args[1]@)),
                    Err(e) => Err(QuoteGeneratorError::WriteQuoteFile(e)),
                }
            },
        ),
        spec_run(config, args, answers, 3) matches StepView::Done(Ok(path)) ==> spec_run(
            config,
            args,
            answers,
            requests_before_write(config),
        ) == StepView::Write(WriteStepView { path, quote: answers.quote->Some_0 }),
{
    reveal_with_fuel(spec_run, 4);
}

} // verus!
