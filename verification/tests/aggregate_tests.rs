use skinconv::aggregate::{classify, classify_outcomes, count_failures, exit_code};
use skinconv::outcome::{FatalError, FileFailure, FileOutcome, RunResult};

fn ok() -> FileOutcome {
    FileOutcome::Success
}

fn failed(why: FileFailure) -> FileOutcome {
    FileOutcome::Failure(why)
}

#[test]
fn all_successes_exit_with_zero() {
    let outs = vec![ok(), ok(), ok()];
    assert_eq!(count_failures(&outs), 0);
    let result = classify_outcomes(&outs);
    assert_eq!(result, RunResult::Success);
    assert_eq!(exit_code(&Ok(result)), 0);
}

#[test]
fn some_failures_exit_with_their_count() {
    let outs = vec![
        ok(),
        failed(FileFailure::DecodeError),
        ok(),
        failed(FileFailure::EncodeError),
        ok(),
    ];
    assert_eq!(count_failures(&outs), 2);
    let result = classify_outcomes(&outs);
    assert_eq!(result, RunResult::PartialFailure(2));
    assert_eq!(exit_code(&Ok(result)), 2);
}

#[test]
fn all_failures_exit_with_minus_one() {
    let outs = vec![
        failed(FileFailure::DecodeError),
        failed(FileFailure::MissingFileName),
    ];
    assert_eq!(count_failures(&outs), 2);
    let result = classify_outcomes(&outs);
    assert_eq!(result, RunResult::TotalFailure);
    assert_eq!(exit_code(&Ok(result)), -1);
}

#[test]
fn one_file_is_classified_at_the_extremes() {
    assert_eq!(classify_outcomes(&vec![ok()]), RunResult::Success);
    assert_eq!(
        classify_outcomes(&vec![failed(FileFailure::DecodeError)]),
        RunResult::TotalFailure
    );
}

#[test]
fn classify_from_counts() {
    assert_eq!(classify(4, 0), RunResult::Success);
    assert_eq!(classify(4, 1), RunResult::PartialFailure(1));
    assert_eq!(classify(4, 3), RunResult::PartialFailure(3));
    assert_eq!(classify(4, 4), RunResult::TotalFailure);
}

#[test]
fn classification_ignores_outcome_order() {
    let a = vec![ok(), failed(FileFailure::DecodeError), ok()];
    let b = vec![failed(FileFailure::DecodeError), ok(), ok()];
    assert_eq!(classify_outcomes(&a), classify_outcomes(&b));
    assert_eq!(count_failures(&a), count_failures(&b));
}

#[test]
fn fatal_errors_exit_with_minus_two() {
    for f in [
        FatalError::InvalidPattern,
        FatalError::EnumerationError,
        FatalError::NoInputFiles,
        FatalError::InvalidOutputTarget,
    ] {
        assert_eq!(exit_code(&Err(f)), -2);
    }
}
