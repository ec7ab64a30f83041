use skinconv::outcome::{FatalError, FileFailure};
use skinconv::plan::{
    file_name, join_path, output_target, plan_run, validate_output, OutputStatus,
};
use skinconv::resolve::{Entry, Expansion};

fn dir_status() -> OutputStatus {
    OutputStatus { exists: true, is_file: false, is_dir: true }
}

fn file_status() -> OutputStatus {
    OutputStatus { exists: true, is_file: true, is_dir: false }
}

fn missing_status() -> OutputStatus {
    OutputStatus { exists: false, is_file: false, is_dir: false }
}

fn file(path: &str) -> Entry {
    Entry::Found { path: path.to_string(), is_file: true }
}

#[test]
fn multiple_inputs_need_directory_output() {
    assert_eq!(validate_output(2, file_status()), Err(FatalError::InvalidOutputTarget));
    assert_eq!(validate_output(2, missing_status()), Err(FatalError::InvalidOutputTarget));
    assert_eq!(validate_output(2, dir_status()), Ok(()));
}

#[test]
fn single_input_takes_any_output() {
    assert_eq!(validate_output(1, file_status()), Ok(()));
    assert_eq!(validate_output(1, missing_status()), Ok(()));
    assert_eq!(validate_output(1, dir_status()), Ok(()));
}

#[test]
fn file_name_extracts_base_name() {
    assert_eq!(file_name(&"dir/a.png".to_string()), Some("a.png".to_string()));
    assert_eq!(file_name(&"a.png".to_string()), Some("a.png".to_string()));
    assert_eq!(file_name(&"x/y/z.png".to_string()), Some("z.png".to_string()));
}

#[test]
fn file_name_of_trailing_separator_is_missing() {
    assert_eq!(file_name(&"dir/".to_string()), None);
    assert_eq!(file_name(&"".to_string()), None);
}

#[test]
fn join_path_inserts_separator() {
    assert_eq!(join_path(&"out".to_string(), &"a.png".to_string()), "out/a.png".to_string());
}

#[test]
fn target_in_directory_appends_base_name() {
    let r = output_target(&"out".to_string(), true, &"in/a.png".to_string());
    assert_eq!(r, Ok("out/a.png".to_string()));
}

#[test]
fn target_without_directory_is_verbatim() {
    let r = output_target(&"out.png".to_string(), false, &"in/a.png".to_string());
    assert_eq!(r, Ok("out.png".to_string()));
}

#[test]
fn target_without_base_name_is_missing_file_name() {
    let r = output_target(&"out".to_string(), true, &"in/".to_string());
    assert_eq!(r, Err(FileFailure::MissingFileName));
}

#[test]
fn plan_run_fans_out_into_directory() {
    let exps = vec![Expansion::Entries(vec![file("in/a.png"), file("in/b.png")])];
    let jobs = plan_run(&exps, &"out".to_string(), dir_status()).unwrap();
    assert_eq!(jobs.len(), 2);
    assert_eq!(jobs[0].source, "in/a.png".to_string());
    assert_eq!(jobs[0].target, Some("out/a.png".to_string()));
    assert_eq!(jobs[1].source, "in/b.png".to_string());
    assert_eq!(jobs[1].target, Some("out/b.png".to_string()));
}

#[test]
fn plan_run_single_input_keeps_output_verbatim() {
    let exps = vec![Expansion::Entries(vec![file("in/a.png")])];
    let jobs = plan_run(&exps, &"converted.png".to_string(), file_status()).unwrap();
    assert_eq!(jobs.len(), 1);
    assert_eq!(jobs[0].source, "in/a.png".to_string());
    assert_eq!(jobs[0].target, Some("converted.png".to_string()));
}

#[test]
fn plan_run_rejects_file_output_for_multiple_inputs() {
    let exps = vec![Expansion::Entries(vec![file("in/a.png"), file("in/b.png")])];
    let r = plan_run(&exps, &"out.png".to_string(), file_status());
    assert!(matches!(r, Err(FatalError::InvalidOutputTarget)));
}

#[test]
fn plan_run_rejects_missing_output_for_multiple_inputs() {
    let exps = vec![Expansion::Entries(vec![file("in/a.png"), file("in/b.png")])];
    let r = plan_run(&exps, &"nowhere".to_string(), missing_status());
    assert!(matches!(r, Err(FatalError::InvalidOutputTarget)));
}

#[test]
fn plan_run_propagates_resolution_errors() {
    let r = plan_run(&vec![Expansion::PatternError], &"out".to_string(), dir_status());
    assert!(matches!(r, Err(FatalError::InvalidPattern)));
    let r = plan_run(&Vec::new(), &"out".to_string(), dir_status());
    assert!(matches!(r, Err(FatalError::NoInputFiles)));
}

#[test]
fn plan_run_marks_jobs_without_base_name() {
    let exps = vec![Expansion::Entries(vec![file("in/"), file("in/a.png")])];
    let jobs = plan_run(&exps, &"out".to_string(), dir_status()).unwrap();
    assert_eq!(jobs.len(), 2);
    assert_eq!(jobs[0].source, "in/".to_string());
    assert_eq!(jobs[0].target, None);
    assert_eq!(jobs[1].target, Some("out/a.png".to_string()));
}
