use quote_generator::attestation::{AttestStatus, Report};
use quote_generator::error::QuoteGeneratorError;
use quote_generator::output::OutputNaming;
use quote_generator::workflow::{begin, Config, QuoteStep, ReportPolicy, ReportStep, Step, WriteStep};

fn command_line(words: &[&str]) -> Vec<String> {
    words.iter().map(|w| w.to_string()).collect()
}

fn config(report: ReportPolicy) -> Config {
    Config { report, naming: OutputNaming::FromInput }
}

fn hello_padded() -> [u8; 64] {
    let mut expected = [0u8; 64];
    expected[..5].copy_from_slice(b"hello");
    expected
}

fn sample_report() -> Report {
    Report { d: [0x5A; 1024] }
}

fn quote_step(step: Step) -> QuoteStep {
    match step {
        Step::Quote(step) => step,
        other => panic!("expected a quote request, found {:?}", other),
    }
}

fn report_step(step: Step) -> ReportStep {
    match step {
        Step::Report(step) => step,
        other => panic!("expected a report request, found {:?}", other),
    }
}

fn write_step(step: Step) -> WriteStep {
    match step {
        Step::Write(step) => step,
        other => panic!("expected a write, found {:?}", other),
    }
}

fn failure(step: Step) -> QuoteGeneratorError {
    match step {
        Step::Done(Err(error)) => error,
        other => panic!("expected a failure, found {:?}", other),
    }
}

fn written(step: Step) -> String {
    match step {
        Step::Done(Ok(path)) => path,
        other => panic!("expected the end of the run, found {:?}", other),
    }
}

#[test]
fn hello_run_writes_the_quote_that_came_back() {
    let args = command_line(&["quote-generator", "hello"]);
    let quote = quote_step(begin(config(ReportPolicy::Skip), &args));
    assert_eq!(quote.report_data().d, hello_padded());
    assert_eq!(quote.key_id().d, [0u8; 16]);
    assert!(quote.report().is_none());

    let write = write_step(quote.quote_returned(AttestStatus::Success, Some(vec![0xAA, 0xBB, 0xCC])));
    assert_eq!(write.quote(), &[0xAA, 0xBB, 0xCC]);
    assert_eq!(write.quote().len(), 3);
    assert_eq!(write.path(), "quote-hello.dat");

    assert_eq!(written(write.write_finished(Ok(()))), "quote-hello.dat");
}

#[test]
fn argument_of_65_bytes_ends_the_run_at_once() {
    let long = "x".repeat(65);
    let args = command_line(&["quote-generator", &long]);
    let error = failure(begin(config(ReportPolicy::Diagnostic), &args));
    assert!(matches!(
        error,
        QuoteGeneratorError::ReportDataTooLarge { max: 64, actual: 65 }
    ));
}

#[test]
fn argument_of_64_bytes_is_accepted() {
    let full = "y".repeat(64);
    let args = command_line(&["quote-generator", &full]);
    let quote = quote_step(begin(config(ReportPolicy::Skip), &args));
    assert_eq!(quote.report_data().d, [b'y'; 64]);
}

#[test]
fn length_is_counted_in_bytes() {
    let accented = "\u{e9}".repeat(33);
    let args = command_line(&["quote-generator", &accented]);
    let error = failure(begin(config(ReportPolicy::Skip), &args));
    assert!(matches!(
        error,
        QuoteGeneratorError::ReportDataTooLarge { max: 64, actual: 66 }
    ));
}

#[test]
fn argument_outside_ascii_is_taken_as_its_bytes() {
    let args = command_line(&["quote-generator", "\u{e9}"]);
    let quote = quote_step(begin(config(ReportPolicy::Skip), &args));
    let mut expected = [0u8; 64];
    expected[0] = 0xC3;
    expected[1] = 0xA9;
    assert_eq!(quote.report_data().d, expected);
}

#[test]
fn empty_argument_gives_zero_report_data() {
    let args = command_line(&["quote-generator", ""]);
    let quote = quote_step(begin(config(ReportPolicy::Skip), &args));
    assert_eq!(quote.report_data().d, [0u8; 64]);
    let write = write_step(quote.quote_returned(AttestStatus::Success, Some(vec![1])));
    assert_eq!(write.path(), "quote-.dat");
}

#[test]
fn run_without_argument_ends_at_once() {
    let args = command_line(&["quote-generator"]);
    let error = failure(begin(config(ReportPolicy::Diagnostic), &args));
    assert!(matches!(error, QuoteGeneratorError::InvalidUsage { actual: 0 }));
}

#[test]
fn run_with_two_arguments_ends_at_once() {
    let args = command_line(&["quote-generator", "hello", "world"]);
    let error = failure(begin(config(ReportPolicy::Skip), &args));
    assert!(matches!(error, QuoteGeneratorError::InvalidUsage { actual: 2 }));
}

#[test]
fn usage_is_checked_before_the_length() {
    let long = "x".repeat(100);
    let args = command_line(&["quote-generator", &long, &long]);
    let error = failure(begin(config(ReportPolicy::Skip), &args));
    assert!(matches!(error, QuoteGeneratorError::InvalidUsage { actual: 2 }));
}

#[test]
fn success_without_quote_writes_nothing() {
    let args = command_line(&["quote-generator", "hello"]);
    let quote = quote_step(begin(config(ReportPolicy::Skip), &args));
    let error = failure(quote.quote_returned(AttestStatus::Success, None));
    assert!(matches!(error, QuoteGeneratorError::TdxQuoteEmpty));
}

#[test]
fn failed_quote_writes_nothing() {
    let args = command_line(&["quote-generator", "hello"]);
    let quote = quote_step(begin(config(ReportPolicy::Skip), &args));
    let error = failure(quote.quote_returned(AttestStatus::Failure { code: 8 }, Some(vec![9, 9])));
    assert!(matches!(error, QuoteGeneratorError::TdxQuoteFailed));
}

#[test]
fn diagnostic_report_is_requested_first() {
    let args = command_line(&["quote-generator", "hello"]);
    let report = report_step(begin(config(ReportPolicy::Diagnostic), &args));
    assert_eq!(report.report_data().d, hello_padded());
}

#[test]
fn quote_is_requested_after_a_failed_diagnostic_report() {
    let args = command_line(&["quote-generator", "hello"]);
    let report = report_step(begin(config(ReportPolicy::Diagnostic), &args));
    let quote = quote_step(report.report_returned(AttestStatus::Failure { code: 5 }, sample_report()));
    assert_eq!(quote.report_data().d, hello_padded());
    assert_eq!(quote.key_id().d, [0u8; 16]);
    assert!(matches!(quote.report(), Some(Err(QuoteGeneratorError::TdxReportFailed))));
    let write = write_step(quote.quote_returned(AttestStatus::Success, Some(vec![7, 8])));
    assert_eq!(write.quote(), &[7, 8]);
    assert_eq!(write.path(), "quote-hello.dat");
}

#[test]
fn quote_is_requested_after_a_diagnostic_report() {
    let args = command_line(&["quote-generator", "hello"]);
    let report = report_step(begin(config(ReportPolicy::Diagnostic), &args));
    let quote = quote_step(report.report_returned(AttestStatus::Success, sample_report()));
    assert_eq!(quote.report_data().d, hello_padded());
    match quote.report() {
        Some(Ok(report)) => assert_eq!(report.d, [0x5A; 1024]),
        other => panic!("expected the report, found {:?}", other),
    }
}

#[test]
fn required_report_that_fails_ends_the_run() {
    let args = command_line(&["quote-generator", "hello"]);
    let report = report_step(begin(config(ReportPolicy::Required), &args));
    let error = failure(report.report_returned(AttestStatus::Failure { code: 5 }, sample_report()));
    assert!(matches!(error, QuoteGeneratorError::TdxReportFailed));
}

#[test]
fn required_report_that_comes_is_followed_by_the_quote() {
    let args = command_line(&["quote-generator", "hello"]);
    let report = report_step(begin(config(ReportPolicy::Required), &args));
    let quote = quote_step(report.report_returned(AttestStatus::Success, sample_report()));
    assert_eq!(quote.report_data().d, hello_padded());
    assert!(matches!(quote.report(), Some(Ok(_))));
}

#[test]
fn fixed_naming_writes_to_quote_dat() {
    let args = command_line(&["quote-generator", "hello"]);
    let fixed = Config { report: ReportPolicy::Skip, naming: OutputNaming::Fixed };
    let quote = quote_step(begin(fixed, &args));
    let write = write_step(quote.quote_returned(AttestStatus::Success, Some(vec![1, 2, 3])));
    assert_eq!(write.path(), "quote.dat");
    assert_eq!(written(write.write_finished(Ok(()))), "quote.dat");
}

#[test]
fn failed_write_is_passed_on() {
    let args = command_line(&["quote-generator", "hello"]);
    let quote = quote_step(begin(config(ReportPolicy::Skip), &args));
    let write = write_step(quote.quote_returned(AttestStatus::Success, Some(vec![1, 2, 3])));
    let denied = std::io::Error::new(std::io::ErrorKind::PermissionDenied, "denied");
    match failure(write.write_finished(Err(denied))) {
        QuoteGeneratorError::WriteQuoteFile(source) => {
            assert_eq!(source.kind(), std::io::ErrorKind::PermissionDenied);
            assert_eq!(source.to_string(), "denied");
        }
        other => panic!("expected a write error, found {:?}", other),
    }
}

#[test]
fn io_error_converts_into_a_write_error() {
    let full = std::io::Error::new(std::io::ErrorKind::Other, "disk full");
    let error = QuoteGeneratorError::from(full);
    assert!(matches!(error, QuoteGeneratorError::WriteQuoteFile(_)));
}
