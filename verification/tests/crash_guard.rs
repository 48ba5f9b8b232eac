//! Tests of the crash guard: log-line composition, escaping, the durable
//! sink fallback chain, and the startup barrier.

use notification_bridge::crashguard::{
    after_sink_attempt, barrier_action, compose_log_line, escape_quotes, fault_location_text,
    fault_message_text, panic_report_line, run_error_report_line, u32_decimal, BarrierAction,
    FaultLocation, HostRunOutcome, LogSinkPlan,
};

#[test]
fn log_line_has_the_exact_frame() {
    let line = compose_log_line(
        "2024-01-01T00:00:00+00:00",
        "RUST_PANIC",
        "boom",
        Some("src/lib.rs:3:7"),
    );
    assert_eq!(
        line,
        "[2024-01-01T00:00:00+00:00] [R] [ERROR] [RUST_PANIC] \
         {\"message\":\"boom\",\"location\":\"src/lib.rs:3:7\"}\n"
    );
}

#[test]
fn run_error_line_omits_the_location() {
    let line = compose_log_line("TS", "RUN_ERROR", "exit code 1", None);
    assert_eq!(line, "[TS] [R] [ERROR] [RUN_ERROR] {\"message\":\"exit code 1\"}\n");
}

#[test]
fn quotes_in_message_and_location_are_escaped() {
    let line = compose_log_line("TS", "RUST_PANIC", "said \"no\"", Some("a \"b\" c"));
    assert_eq!(
        line,
        "[TS] [R] [ERROR] [RUST_PANIC] \
         {\"message\":\"said \\\"no\\\"\",\"location\":\"a \\\"b\\\" c\"}\n"
    );
}

#[test]
fn escape_quotes_exactly() {
    assert_eq!(escape_quotes("plain"), "plain");
    assert_eq!(escape_quotes("a\"b"), "a\\\"b");
    assert_eq!(escape_quotes("\"\""), "\\\"\\\"");
    assert_eq!(escape_quotes(""), "");
    assert_eq!(escape_quotes("héllo \"wörld\""), "héllo \\\"wörld\\\"");
}

#[test]
fn panic_report_is_one_stamped_line() {
    let line = panic_report_line("it broke", "src/main.rs:1:1");
    assert!(line.starts_with('['));
    assert!(line.ends_with('\n'));
    assert_eq!(line.matches('\n').count(), 1);
    assert!(line.contains("] [R] [ERROR] [RUST_PANIC] {\"message\":\"it broke\""));
    assert!(line.contains("\"location\":\"src/main.rs:1:1\"}"));
    // The stamped timestamp is nonempty and free of quotes.
    let ts = &line[1..line.find(']').unwrap()];
    assert!(!ts.is_empty());
    assert!(!ts.contains('"'));
    assert!(ts.contains('T'));
}

#[test]
fn run_error_report_is_one_stamped_line() {
    let line = run_error_report_line("webview missing");
    assert!(line.ends_with("{\"message\":\"webview missing\"}\n"));
    assert_eq!(line.matches('\n').count(), 1);
    assert!(line.contains("] [R] [ERROR] [RUN_ERROR] "));
}

#[test]
fn fault_texts_fall_back_to_fixed_literals() {
    assert_eq!(fault_message_text(None), "Unknown panic payload");
    assert_eq!(fault_message_text(Some("real cause".to_string())), "real cause");
    assert_eq!(fault_location_text(None), "Unknown location");
    let loc = FaultLocation { file: "src/store.rs".to_string(), line: 42, column: 7 };
    assert_eq!(fault_location_text(Some(&loc)), "src/store.rs:42:7");
}

#[test]
fn decimal_rendering_is_exact() {
    assert_eq!(u32_decimal(0), "0");
    assert_eq!(u32_decimal(7), "7");
    assert_eq!(u32_decimal(42), "42");
    assert_eq!(u32_decimal(1000), "1000");
    assert_eq!(u32_decimal(u32::MAX), "4294967295");
}

#[test]
fn primary_sink_failure_falls_back() {
    let next = after_sink_attempt(LogSinkPlan::TryPrimary, false);
    assert_eq!(next, LogSinkPlan::TryFallback);
    let done = after_sink_attempt(next, true);
    assert_eq!(done, LogSinkPlan::Settled { durable: true });
}

#[test]
fn primary_sink_success_settles_durably() {
    assert_eq!(
        after_sink_attempt(LogSinkPlan::TryPrimary, true),
        LogSinkPlan::Settled { durable: true }
    );
}

#[test]
fn exhausted_sinks_settle_without_raising() {
    let next = after_sink_attempt(LogSinkPlan::TryPrimary, false);
    let done = after_sink_attempt(next, false);
    assert_eq!(done, LogSinkPlan::Settled { durable: false });
    // Settled is absorbing.
    assert_eq!(after_sink_attempt(done, true), done);
}

#[test]
fn barrier_reacts_to_each_run_outcome() {
    assert!(matches!(
        barrier_action(&HostRunOutcome::Completed),
        BarrierAction::Proceed
    ));
    assert!(matches!(
        barrier_action(&HostRunOutcome::Faulted),
        BarrierAction::NoteContainedFault
    ));
    match barrier_action(&HostRunOutcome::RunError("no display".to_string())) {
        BarrierAction::RecordRunError(line) => {
            assert!(line.contains("[RUN_ERROR] {\"message\":\"no display\"}"));
            assert_eq!(line.matches('\n').count(), 1);
        },
        _ => panic!("expected a recorded run error"),
    }
}
