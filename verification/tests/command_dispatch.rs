//! Tests of command dispatch: the degraded branch on unsupported
//! platforms, and the settling of platform outcomes.

use notification_bridge::commands::{
    conclude, degraded_result, plan, Action, Command, NotificationServiceStatus, PermissionStatus,
    Reply,
};
use notification_bridge::gateway::{
    failure_message, required_capability, store_file_name, store_key_name, Capability,
    FailureStage, GatewayOutcome, GatewayValue, Operation, Platform, StoreKey, StoreName,
};

fn all_commands() -> Vec<Command> {
    vec![
        Command::CheckNotificationPermission,
        Command::OpenNotificationSettings,
        Command::CheckAppNotificationPermission,
        Command::RequestAppNotificationPermission,
        Command::OpenAppNotificationSettings,
        Command::SimulateAppPaymentNotification {
            title: "t".to_string(),
            body: "b".to_string(),
        },
        Command::GetPendingNotifications,
        Command::ClearPendingNotifications,
        Command::GetNotificationServiceStatus,
        Command::PingNotificationListenerService,
        Command::CheckBatteryOptimizationDisabled,
        Command::OpenBatteryOptimizationSettings,
        Command::CheckAutostartEnabled,
        Command::OpenAutostartSettings,
        Command::GetFcmToken,
        Command::GetPendingNavigation,
        Command::ClearPendingNavigation,
    ]
}

#[test]
fn unsupported_platform_never_invokes() {
    // The invocation counter stays at zero across the whole surface.
    let unsupported = Platform { has_managed_runtime: false };
    let mut invocations = 0;
    for cmd in all_commands() {
        match plan(&cmd, &unsupported) {
            Action::Invoke(_) => invocations += 1,
            Action::Finish(_) => {},
        }
    }
    assert_eq!(invocations, 0);
}

#[test]
fn supported_platform_always_invokes() {
    let supported = Platform { has_managed_runtime: true };
    for cmd in all_commands() {
        assert!(matches!(plan(&cmd, &supported), Action::Invoke(_)));
    }
}

#[test]
fn degraded_values_match_the_documented_surface() {
    let r = degraded_result(&Command::CheckNotificationPermission);
    assert_eq!(r.unwrap(), Reply::Permission(PermissionStatus { granted: false }));

    let r = degraded_result(&Command::OpenNotificationSettings);
    assert_eq!(r.unwrap_err(), "This feature is only available on Android");

    let r = degraded_result(&Command::SimulateAppPaymentNotification {
        title: "t".to_string(),
        body: "b".to_string(),
    });
    assert_eq!(
        r.unwrap_err(),
        "Payment notification simulation is only available on Android"
    );

    let r = degraded_result(&Command::GetPendingNotifications);
    assert_eq!(r.unwrap(), Reply::Notifications(vec![]));

    let r = degraded_result(&Command::GetNotificationServiceStatus);
    assert_eq!(
        r.unwrap(),
        Reply::Status(NotificationServiceStatus { last_heartbeat: 0 })
    );

    let r = degraded_result(&Command::CheckBatteryOptimizationDisabled);
    assert_eq!(r.unwrap(), Reply::Flag(false));

    let r = degraded_result(&Command::CheckAutostartEnabled);
    assert_eq!(r.unwrap(), Reply::Flag(false));

    let r = degraded_result(&Command::GetFcmToken);
    assert_eq!(r.unwrap(), Reply::StoredText(None));

    let r = degraded_result(&Command::ClearPendingNavigation);
    assert_eq!(r.unwrap(), Reply::Ack);
}

#[test]
fn permission_check_settles_from_flag() {
    let r = conclude(
        &Command::CheckNotificationPermission,
        GatewayOutcome::Success(GatewayValue::Flag(true)),
    );
    assert_eq!(r.unwrap(), Reply::Permission(PermissionStatus { granted: true }));
}

#[test]
fn heartbeat_settles_from_millis() {
    let r = conclude(
        &Command::GetNotificationServiceStatus,
        GatewayOutcome::Success(GatewayValue::Millis(1234567)),
    );
    assert_eq!(
        r.unwrap(),
        Reply::Status(NotificationServiceStatus { last_heartbeat: 1234567 })
    );
}

#[test]
fn settings_open_settles_from_unit() {
    let r = conclude(
        &Command::OpenNotificationSettings,
        GatewayOutcome::Success(GatewayValue::Unit),
    );
    assert_eq!(r.unwrap(), Reply::Ack);
}

#[test]
fn failure_surfaces_stage_prefixed_text() {
    let r = conclude(
        &Command::CheckAppNotificationPermission,
        GatewayOutcome::Failure {
            stage: FailureStage::AttachThread,
            detail: "thread detached".to_string(),
        },
    );
    assert_eq!(r.unwrap_err(), "Failed to attach thread: thread detached");
}

#[test]
fn failure_messages_carry_each_stage_prefix() {
    assert_eq!(
        failure_message(FailureStage::AcquireRuntime, "x"),
        "Failed to get JavaVM: x"
    );
    assert_eq!(
        failure_message(FailureStage::AttachThread, "x"),
        "Failed to attach thread: x"
    );
    assert_eq!(
        failure_message(FailureStage::ResolveTarget, "x"),
        "Failed to find helper class: x"
    );
    assert_eq!(
        failure_message(FailureStage::MarshalArguments, "x"),
        "Failed to marshal arguments: x"
    );
    assert_eq!(failure_message(FailureStage::Invoke, "x"), "Failed to call method: x");
    assert_eq!(
        failure_message(FailureStage::UnmarshalResult, "x"),
        "Failed to read result: x"
    );
}

#[test]
fn shape_mismatch_is_an_error() {
    let r = conclude(
        &Command::CheckNotificationPermission,
        GatewayOutcome::Success(GatewayValue::Text("not a flag".to_string())),
    );
    assert_eq!(r.unwrap_err(), "Failed to read result: unexpected value shape");
}

#[test]
fn unsupported_outcome_degrades_like_the_platform_branch() {
    let r = conclude(&Command::GetFcmToken, GatewayOutcome::Unsupported);
    assert_eq!(r.unwrap(), Reply::StoredText(None));
}

#[test]
fn token_read_normalizes_empty_sentinel() {
    let r = conclude(
        &Command::GetFcmToken,
        GatewayOutcome::Success(GatewayValue::Text(String::new())),
    );
    assert_eq!(r.unwrap(), Reply::StoredText(None));

    let r = conclude(
        &Command::GetPendingNavigation,
        GatewayOutcome::Success(GatewayValue::Text("/orders/17".to_string())),
    );
    assert_eq!(r.unwrap(), Reply::StoredText(Some("/orders/17".to_string())));
}

#[test]
fn operations_carry_store_addressing() {
    let supported = Platform { has_managed_runtime: true };
    match plan(&Command::GetFcmToken, &supported) {
        Action::Invoke(Operation::ReadStoreValue { store, key }) => {
            assert_eq!(store_file_name(&store), "fcm_prefs");
            assert_eq!(store_key_name(&key), "fcm_token");
        },
        _ => panic!("expected a store read"),
    }
    match plan(&Command::ClearPendingNavigation, &supported) {
        Action::Invoke(Operation::RemoveStoreKey { store, key }) => {
            assert_eq!(store_file_name(&store), "app_prefs");
            assert_eq!(store_key_name(&key), "pending_navigation");
        },
        _ => panic!("expected a key removal"),
    }
}

#[test]
fn capabilities_gate_the_right_operations() {
    assert_eq!(
        required_capability(&Operation::ResolvePrivateStorageDir),
        Capability::PrivateStorage
    );
    assert_eq!(
        required_capability(&Operation::ReadStoreValue {
            store: StoreName::PushMessaging,
            key: StoreKey::PushToken,
        }),
        Capability::PreferenceStore
    );
    assert_eq!(
        required_capability(&Operation::IsNotificationListenerEnabled),
        Capability::NotificationHelper
    );
}

#[test]
fn command_after_a_failure_still_succeeds() {
    // A failed command leaves no state behind: the next, unrelated call
    // settles normally.
    let _ = conclude(
        &Command::CheckNotificationPermission,
        GatewayOutcome::Failure {
            stage: FailureStage::AcquireRuntime,
            detail: "gone".to_string(),
        },
    );
    let r = conclude(
        &Command::CheckBatteryOptimizationDisabled,
        GatewayOutcome::Success(GatewayValue::Flag(true)),
    );
    assert_eq!(r.unwrap(), Reply::Flag(true));
}
