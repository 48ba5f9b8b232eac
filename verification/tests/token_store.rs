//! Tests of the push-token / navigation store: sentinel normalization and
//! the two-step navigation clear.

use notification_bridge::gateway::{
    FailureStage, GatewayOutcome, GatewayValue, Operation, StoreName,
};
use notification_bridge::store::{
    clear_navigation_after_apply, clear_navigation_after_remove, normalize_store_value,
    NavClearStep,
};

#[test]
fn empty_sentinel_normalizes_to_none() {
    assert_eq!(normalize_store_value(String::new()), None);
}

#[test]
fn present_value_normalizes_unchanged() {
    assert_eq!(
        normalize_store_value("token-abc".to_string()),
        Some("token-abc".to_string())
    );
    // A whitespace-only value is a value, not the sentinel.
    assert_eq!(normalize_store_value(" ".to_string()), Some(" ".to_string()));
}

fn run_clear_navigation() -> Result<(), String> {
    // The platform store accepts the removal and the commit.
    match clear_navigation_after_remove(GatewayOutcome::Success(GatewayValue::Unit)) {
        NavClearStep::Settle(r) => r,
        NavClearStep::Apply(op) => {
            assert_eq!(op, Operation::ApplyStoreEdits { store: StoreName::Application });
            clear_navigation_after_apply(GatewayOutcome::Success(GatewayValue::Unit))
        },
    }
}

#[test]
fn clear_navigation_is_idempotent() {
    // Removing an absent key succeeds at the store level, so both of two
    // successive clears settle with ok.
    assert!(run_clear_navigation().is_ok());
    assert!(run_clear_navigation().is_ok());
}

#[test]
fn clear_navigation_degrades_to_ok() {
    match clear_navigation_after_remove(GatewayOutcome::Unsupported) {
        NavClearStep::Settle(r) => assert!(r.is_ok()),
        _ => panic!("expected a settled clear"),
    }
}

#[test]
fn failed_removal_is_surfaced() {
    match clear_navigation_after_remove(GatewayOutcome::Failure {
        stage: FailureStage::Invoke,
        detail: "remove rejected".to_string(),
    }) {
        NavClearStep::Settle(r) => {
            assert_eq!(r.unwrap_err(), "Failed to call method: remove rejected");
        },
        _ => panic!("expected a settled clear"),
    }
}

#[test]
fn failed_commit_is_surfaced() {
    let r = clear_navigation_after_apply(GatewayOutcome::Failure {
        stage: FailureStage::Invoke,
        detail: "apply rejected".to_string(),
    });
    assert_eq!(r.unwrap_err(), "Failed to call method: apply rejected");
}

#[test]
fn unexpected_shape_fails_the_clear() {
    match clear_navigation_after_remove(GatewayOutcome::Success(GatewayValue::Flag(true))) {
        NavClearStep::Settle(r) => {
            assert_eq!(r.unwrap_err(), "Failed to read result: unexpected value shape");
        },
        _ => panic!("expected a settled clear"),
    }
}
