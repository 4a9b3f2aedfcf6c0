use mvr::config::resolve;
use mvr::executor::{
    after_target_check, begin_entry, is_affirmative, prompt_line, report_line, EntryStep,
    ExecutionPolicy, ExecutionResult, TargetStep,
};
use mvr::planner::{plan, RenameEntry};

fn policy(dry_run: bool, prompt_on_overwrite: bool) -> ExecutionPolicy {
    ExecutionPolicy { dry_run, prompt_on_overwrite, abort_on_first_error: true }
}

#[test]
fn noop_entries_are_skipped_under_every_policy() {
    let entry = RenameEntry { original: String::from("a.txt"), proposed: String::from("a.txt") };
    for dry in [false, true] {
        for prompt in [false, true] {
            assert_eq!(begin_entry(&entry, &policy(dry, prompt)), EntryStep::SkipNoop);
        }
    }
}

#[test]
fn dry_run_scenario() {
    let spec = resolve("a", false, false).unwrap();
    let inputs = vec![String::from("a.txt"), String::from("b.txt")];
    let p = plan(&spec, "x", &inputs).unwrap();
    let policy = policy(true, false);

    // The changed entry is reported with the exact arrow line, and stops
    // there: no filesystem step follows.
    assert_eq!(begin_entry(&p.entries[0], &policy), EntryStep::ReportOnly);
    assert_eq!(report_line(&p.entries[0]), "a.txt => x.txt");

    // The unchanged entry is a no-op: no report line at all.
    assert_eq!(begin_entry(&p.entries[1], &policy), EntryStep::SkipNoop);
}

#[test]
fn changed_entry_renames_unconditionally_without_prompting() {
    let entry = RenameEntry { original: String::from("a.txt"), proposed: String::from("x.txt") };
    assert_eq!(begin_entry(&entry, &policy(false, false)), EntryStep::ReportThenRename);
}

#[test]
fn prompting_checks_the_target_first() {
    let entry = RenameEntry { original: String::from("a.txt"), proposed: String::from("x.txt") };
    assert_eq!(begin_entry(&entry, &policy(false, true)), EntryStep::ReportThenCheck);
    assert_eq!(after_target_check(false), TargetStep::Rename);
    assert_eq!(after_target_check(true), TargetStep::Prompt);
}

#[test]
fn overwrite_prompt_declined() {
    // Target x.txt exists, prompting enabled, the answer is "n": the rename
    // is skipped, counted as skipped, and the run still succeeds.
    let entry = RenameEntry { original: String::from("a.txt"), proposed: String::from("x.txt") };
    let policy = policy(false, true);

    assert_eq!(begin_entry(&entry, &policy), EntryStep::ReportThenCheck);
    assert_eq!(after_target_check(true), TargetStep::Prompt);
    assert_eq!(prompt_line("x.txt"), "overwrite x.txt? (y/n [n]) ");
    assert!(!is_affirmative("n\n"));

    let mut result = ExecutionResult::new();
    result.record_skipped();
    assert_eq!(result.skipped, 1);
    assert_eq!(result.renamed, 0);
    assert!(result.succeeded());
    assert_eq!(result.exit_code(), 0);
}

#[test]
fn affirmative_answers() {
    assert!(is_affirmative("y"));
    assert!(is_affirmative("Y"));
    assert!(is_affirmative("y\n"));
    assert!(is_affirmative("  Y  \r\n"));
    assert!(is_affirmative("y\u{a0}\n"));
    assert!(is_affirmative("\u{2003}Y"));
    assert!(!is_affirmative(""));
    assert!(!is_affirmative("\n"));
    assert!(!is_affirmative("n"));
    assert!(!is_affirmative("yes"));
    assert!(!is_affirmative("yy"));
    assert!(!is_affirmative("x y"));
}

#[test]
fn report_line_has_the_exact_arrow_shape() {
    let entry = RenameEntry { original: String::from("old name"), proposed: String::from("new") };
    assert_eq!(report_line(&entry), "old name => new");
}

#[test]
fn result_counts_and_exit_status() {
    let mut result = ExecutionResult::new();
    assert_eq!((result.renamed, result.skipped, result.failed), (0, 0, 0));
    result.record_renamed();
    result.record_renamed();
    result.record_skipped();
    assert_eq!((result.renamed, result.skipped, result.failed), (2, 1, 0));
    assert!(result.succeeded());
    assert_eq!(result.exit_code(), 0);

    result.record_failed();
    assert_eq!(result.failed, 1);
    assert!(!result.succeeded());
    assert_eq!(result.exit_code(), 1);
}
