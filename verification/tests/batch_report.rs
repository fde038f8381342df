use leptosfmt::batch::{batch_outcomes, engine_outcome, plan_task, PathEntry, TaskEvent,
    TaskOutcome, TaskPlan};
use leptosfmt::report::{diagnostic_line, failure_line, render_outcome, report_lines, success_line,
    summary_line, u128_to_string, usize_to_string};

#[test]
fn plan_runs_engine_on_matched_paths() {
    let plan = plan_task(PathEntry::Matched("src/a.rs".to_string()));
    match plan {
        TaskPlan::RunEngine { path } => assert_eq!(path, "src/a.rs"),
        TaskPlan::Record { .. } => panic!("a matched path must reach the engine"),
    }
}

#[test]
fn plan_records_enumeration_errors_without_engine() {
    let plan = plan_task(PathEntry::Unreadable {
        path: "src/locked.rs".to_string(),
        message: "permission denied".to_string(),
    });
    match plan {
        TaskPlan::RunEngine { .. } => panic!("an enumeration error must not reach the engine"),
        TaskPlan::Record { outcome } => match outcome {
            TaskOutcome::Failure { path, message } => {
                assert_eq!(path, "src/locked.rs");
                assert_eq!(message, "permission denied");
            },
            TaskOutcome::Success { .. } => panic!("an enumeration error is a failure"),
        },
    }
}

#[test]
fn every_event_kind_yields_one_outcome() {
    let written = engine_outcome("a.rs".to_string(), TaskEvent::Written);
    assert!(matches!(written, TaskOutcome::Success { .. }));

    let engine_err = engine_outcome(
        "b.rs".to_string(),
        TaskEvent::EngineError("could not parse file".to_string()),
    );
    assert!(matches!(engine_err, TaskOutcome::Failure { .. }));

    let panicked = engine_outcome("c.rs".to_string(), TaskEvent::EnginePanic("boom".to_string()));
    assert!(matches!(panicked, TaskOutcome::Failure { .. }));

    let write_err = engine_outcome(
        "d.rs".to_string(),
        TaskEvent::WriteError("read-only file".to_string()),
    );
    assert!(matches!(write_err, TaskOutcome::Failure { .. }));
}

#[test]
fn batch_count_matches_candidates_with_failures_counted() {
    // Four candidates, two failures: four per-file lines, exactly two failure lines.
    let entries = vec![
        PathEntry::Matched("a.rs".to_string()),
        PathEntry::Matched("b.rs".to_string()),
        PathEntry::Unreadable {
            path: "c.rs".to_string(),
            message: "unreadable".to_string(),
        },
        PathEntry::Matched("d.rs".to_string()),
    ];
    let events = vec![
        TaskEvent::Written,
        TaskEvent::EngineError("unexpected token".to_string()),
        TaskEvent::Written,
        TaskEvent::Written,
    ];
    let outcomes = batch_outcomes(entries, events);
    assert_eq!(outcomes.len(), 4);
    let lines = report_lines(&outcomes);
    assert_eq!(lines.len(), 4);
    let failures = lines.iter().filter(|l| l.starts_with('\u{274c}')).count();
    assert_eq!(failures, 2);
    let successes = lines.iter().filter(|l| l.starts_with('\u{2705}')).count();
    assert_eq!(successes, 2);
}

#[test]
fn one_panicking_task_leaves_the_rest_reported() {
    // The middle task terminates abnormally; the other two are still
    // decided and reported exactly as without it.
    let entries = vec![
        PathEntry::Matched("a.rs".to_string()),
        PathEntry::Matched("b.rs".to_string()),
        PathEntry::Matched("c.rs".to_string()),
    ];
    let events = vec![
        TaskEvent::Written,
        TaskEvent::EnginePanic("stack overflow".to_string()),
        TaskEvent::Written,
    ];
    let outcomes = batch_outcomes(entries, events);
    assert_eq!(outcomes.len(), 3);
    let lines = report_lines(&outcomes);
    assert_eq!(lines[0], "\u{2705} a.rs");
    assert_eq!(lines[1], "\u{274c} b.rs");
    assert_eq!(lines[2], "\u{2705} c.rs");
}

#[test]
fn scenario_one_success_two_distinct_failures() {
    // Three candidate files: one formats, one gets a structured engine
    // error, one's engine call terminates abnormally.
    let entries = vec![
        PathEntry::Matched("a.rs".to_string()),
        PathEntry::Matched("b.rs".to_string()),
        PathEntry::Matched("c.rs".to_string()),
    ];
    let events = vec![
        TaskEvent::Written,
        TaskEvent::EngineError("unexpected token".to_string()),
        TaskEvent::EnginePanic("formatting task panicked".to_string()),
    ];
    let outcomes = batch_outcomes(entries, events);
    assert_eq!(outcomes.len(), 3);

    let lines = report_lines(&outcomes);
    assert_eq!(lines.len(), 3);
    assert_eq!(lines[0], "\u{2705} a.rs");
    assert_eq!(lines[1], "\u{274c} b.rs");
    assert_eq!(lines[2], "\u{274c} c.rs");

    let (_, diag_b) = render_outcome(&outcomes[1]);
    let (_, diag_c) = render_outcome(&outcomes[2]);
    let diag_b = diag_b.expect("a failure owes a diagnostic line");
    let diag_c = diag_c.expect("a failure owes a diagnostic line");
    assert_eq!(diag_b, "\t\tunexpected token");
    assert_eq!(diag_c, "\t\tformatting task panicked");
    assert_ne!(diag_b, diag_c);

    assert_eq!(summary_line(3, 17), "Formatted 3 files in 17 ms");
}

#[test]
fn empty_batch_reports_nothing_but_a_summary() {
    let outcomes = batch_outcomes(vec![], vec![]);
    assert_eq!(outcomes.len(), 0);
    assert_eq!(report_lines(&outcomes).len(), 0);
    assert_eq!(summary_line(0, 0), "Formatted 0 files in 0 ms");
}

#[test]
fn status_lines_render_exactly() {
    assert_eq!(success_line("src/app.rs"), "\u{2705} src/app.rs");
    assert_eq!(failure_line("src/app.rs"), "\u{274c} src/app.rs");
    assert_eq!(diagnostic_line("could not parse file"), "\t\tcould not parse file");
}

#[test]
fn success_outcome_has_no_diagnostic() {
    let (line, diag) = render_outcome(&TaskOutcome::Success { path: "a.rs".to_string() });
    assert_eq!(line, "\u{2705} a.rs");
    assert!(diag.is_none());
}

#[test]
fn decimal_rendering_is_exact() {
    assert_eq!(usize_to_string(0), "0");
    assert_eq!(usize_to_string(7), "7");
    assert_eq!(usize_to_string(10), "10");
    assert_eq!(usize_to_string(907), "907");
    assert_eq!(u128_to_string(18446744073709551616), "18446744073709551616");
    assert_eq!(summary_line(1200, 99), "Formatted 1200 files in 99 ms");
}
