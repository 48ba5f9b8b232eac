//! The bridge's command surface.
//!
//! Each frontend command is a thin declaration: the platform operation it
//! performs and the degraded value it returns on platforms lacking the
//! capability. [`plan`] makes the capability decision — on an unsupported
//! platform no operation is ever requested — and [`conclude`] turns the
//! operation's outcome into the command's response. Commands that need
//! more than one platform step (the queue commands, the navigation clear)
//! start here and continue in [`crate::queue`] and [`crate::store`].

use vstd::prelude::*;
use vstd::string::StringExecFns;

use crate::gateway::{
    failure_message, shape_error_message, shape_error_view, stage_prefix, GatewayOutcome,
    GatewayValue, Operation, Platform, StoreKey, StoreName,
};
use crate::record::PendingNotification;
use crate::store::{normalize_store_value, normalized_value};

verus! {

/// Whether a permission facet is granted. Produced fresh on each query.
#[derive(Clone, Copy, Debug, PartialEq, Eq, Structural)]
pub struct PermissionStatus {
    pub granted: bool,
}

/// The liveness signal of the external listener service.
#[derive(Clone, Copy, Debug, PartialEq, Eq, Structural)]
pub struct NotificationServiceStatus {
    pub last_heartbeat: i64,
}

/// One command of the bridge's frontend surface.
#[derive(Clone, Debug, PartialEq)]
pub enum Command {
    CheckNotificationPermission,
    OpenNotificationSettings,
    CheckAppNotificationPermission,
    RequestAppNotificationPermission,
    OpenAppNotificationSettings,
    SimulateAppPaymentNotification { title: String, body: String },
    GetPendingNotifications,
    ClearPendingNotifications,
    GetNotificationServiceStatus,
    PingNotificationListenerService,
    CheckBatteryOptimizationDisabled,
    OpenBatteryOptimizationSettings,
    CheckAutostartEnabled,
    OpenAutostartSettings,
    GetFcmToken,
    GetPendingNavigation,
    ClearPendingNavigation,
}

/// A command's successful response value.
#[derive(Clone, Debug, PartialEq)]
pub enum Reply {
    /// The command returns nothing.
    Ack,
    /// A permission facet's status.
    Permission(PermissionStatus),
    /// A bare boolean, for the device-posture checks.
    Flag(bool),
    /// The listener service's liveness signal.
    Status(NotificationServiceStatus),
    /// A normalized store value: `None` for the empty-string sentinel.
    StoredText(Option<String>),
    /// The retained pending notifications.
    Notifications(Vec<PendingNotification>),
}

/// What dispatch asks the host layer to do next.
pub enum Action {
    /// The command is settled with this result; no platform call is made.
    Finish(Result<Reply, String>),
    /// Perform this platform operation and feed the outcome back.
    Invoke(Operation),
}

/// The degraded error text of the settings-opening commands, which have no
/// safe no-op.
pub open spec fn unavailable_view() -> Seq<char> {
    "This feature is only available on Android"@
}

/// The degraded error text of the notification-simulation command.
pub open spec fn simulate_unavailable_view() -> Seq<char> {
    "Payment notification simulation is only available on Android"@
}

/// Whether `r` is the documented degraded response of `cmd`: the value the
/// command returns, without any platform call, where the capability is
/// absent. Reads default to "not granted" / "nothing stored"; the
/// settings-opening and simulation commands have no safe default and fail.
pub open spec fn degraded_result_spec(cmd: Command, r: Result<Reply, String>) -> bool {
    match cmd {
        Command::CheckNotificationPermission => r == Ok::<Reply, String>(
            Reply::Permission(PermissionStatus { granted: false }),
        ),
        Command::CheckAppNotificationPermission => r == Ok::<Reply, String>(
            Reply::Permission(PermissionStatus { granted: false }),
        ),
        Command::RequestAppNotificationPermission => r == Ok::<Reply, String>(
            Reply::Permission(PermissionStatus { granted: false }),
        ),
        Command::OpenNotificationSettings => r matches Err(m) && m@ == unavailable_view(),
        Command::OpenAppNotificationSettings => r matches Err(m) && m@ == unavailable_view(),
        Command::OpenBatteryOptimizationSettings => r matches Err(m) && m@ == unavailable_view(),
        Command::OpenAutostartSettings => r matches Err(m) && m@ == unavailable_view(),
        Command::SimulateAppPaymentNotification { .. } => r matches Err(m) && m@
            == simulate_unavailable_view(),
        Command::GetPendingNotifications => r matches Ok(reply) && reply
            matches Reply::Notifications(v) && v@ == Seq::<PendingNotification>::empty(),
        Command::ClearPendingNotifications => r == Ok::<Reply, String>(Reply::Ack),
        Command::GetNotificationServiceStatus => r == Ok::<Reply, String>(
            Reply::Status(NotificationServiceStatus { last_heartbeat: 0 }),
        ),
        Command::PingNotificationListenerService => r == Ok::<Reply, String>(Reply::Ack),
        Command::CheckBatteryOptimizationDisabled => r == Ok::<Reply, String>(Reply::Flag(false)),
        Command::CheckAutostartEnabled => r == Ok::<Reply, String>(Reply::Flag(false)),
        Command::GetFcmToken => r matches Ok(reply) && reply matches Reply::StoredText(t) && t
            is None,
        Command::GetPendingNavigation => r matches Ok(reply) && reply
            matches Reply::StoredText(t) && t is None,
        Command::ClearPendingNavigation => r == Ok::<Reply, String>(Reply::Ack),
    }
}

/// The platform operation a command performs on a supported platform. For
/// the queue commands this is the directory resolution that precedes the
/// file access; for the navigation clear, the key removal that the commit
/// follows.
pub open spec fn operation_spec(cmd: Command) -> Operation {
    match cmd {
        Command::CheckNotificationPermission => Operation::IsNotificationListenerEnabled,
        Command::OpenNotificationSettings => Operation::OpenNotificationListenerSettings,
        Command::CheckAppNotificationPermission => Operation::CheckAppNotificationPermission,
        Command::RequestAppNotificationPermission => Operation::RequestAppNotificationPermission,
        Command::OpenAppNotificationSettings => Operation::OpenAppNotificationSettings,
        Command::SimulateAppPaymentNotification { title, body } => Operation::SimulatePaymentNotification {
            title,
            body,
        },
        Command::GetPendingNotifications => Operation::ResolvePrivateStorageDir,
        Command::ClearPendingNotifications => Operation::ResolvePrivateStorageDir,
        Command::GetNotificationServiceStatus => Operation::GetListenerHeartbeat,
        Command::PingNotificationListenerService => Operation::PingListenerService,
        Command::CheckBatteryOptimizationDisabled => Operation::IsBatteryOptimizationDisabled,
        Command::OpenBatteryOptimizationSettings => Operation::OpenBatteryOptimizationSettings,
        Command::CheckAutostartEnabled => Operation::IsAutostartEnabled,
        Command::OpenAutostartSettings => Operation::OpenAutostartSettings,
        Command::GetFcmToken => Operation::ReadStoreValue {
            store: StoreName::PushMessaging,
            key: StoreKey::PushToken,
        },
        Command::GetPendingNavigation => Operation::ReadStoreValue {
            store: StoreName::Application,
            key: StoreKey::PendingNavigation,
        },
        Command::ClearPendingNavigation => Operation::RemoveStoreKey {
            store: StoreName::Application,
            key: StoreKey::PendingNavigation,
        },
    }
}

/// Whether one platform call settles the command, so that [`conclude`]
/// applies. The queue commands and the navigation clear continue in their
/// own modules instead.
pub open spec fn single_call_command(cmd: Command) -> bool {
    match cmd {
        Command::GetPendingNotifications => false,
        Command::ClearPendingNotifications => false,
        Command::ClearPendingNavigation => false,
        _ => true,
    }
}

/// The documented degraded response of a command.
pub fn degraded_result(cmd: &Command) -> (r: Result<Reply, String>)
    ensures
        degraded_result_spec(*cmd, r),
{
    match cmd {
        Command::CheckNotificationPermission => Ok(
            Reply::Permission(PermissionStatus { granted: false }),
        ),
        Command::CheckAppNotificationPermission => Ok(
            Reply::Permission(PermissionStatus { granted: false }),
        ),
        Command::RequestAppNotificationPermission => Ok(
            Reply::Permission(PermissionStatus { granted: false }),
        ),
        Command::OpenNotificationSettings => Err(
            String::from_str("This feature is only available on Android"),
        ),
        Command::OpenAppNotificationSettings => Err(
            String::from_str("This feature is only available on Android"),
        ),
        Command::OpenBatteryOptimizationSettings => Err(
            String::from_str("This feature is only available on Android"),
        ),
        Command::OpenAutostartSettings => Err(
            String::from_str("This feature is only available on Android"),
        ),
        Command::SimulateAppPaymentNotification { .. } => Err(
            String::from_str("Payment notification simulation is only available on Android"),
        ),
        Command::GetPendingNotifications => Ok(Reply::Notifications(Vec::new())),
        Command::ClearPendingNotifications => Ok(Reply::Ack),
        Command::GetNotificationServiceStatus => Ok(
            Reply::Status(NotificationServiceStatus { last_heartbeat: 0 }),
        ),
        Command::PingNotificationListenerService => Ok(Reply::Ack),
        Command::CheckBatteryOptimizationDisabled => Ok(Reply::Flag(false)),
        Command::CheckAutostartEnabled => Ok(Reply::Flag(false)),
        Command::GetFcmToken => Ok(Reply::StoredText(None)),
        Command::GetPendingNavigation => Ok(Reply::StoredText(None)),
        Command::ClearPendingNavigation => Ok(Reply::Ack),
    }
}

/// Whether the planned action is right for the command on the platform:
/// with the capability present, the command's operation is requested; with
/// it absent, the command finishes degraded and no operation is requested.
pub open spec fn plan_spec(cmd: Command, platform: Platform, a: Action) -> bool {
    if platform.has_managed_runtime {
        a matches Action::Invoke(op) && op == operation_spec(cmd)
    } else {
        a matches Action::Finish(r) && degraded_result_spec(cmd, r)
    }
}

/// Command dispatch, first half: decide between the platform branch and
/// the degraded branch.
pub fn plan(cmd: &Command, platform: &Platform) -> (a: Action)
    ensures
        plan_spec(*cmd, *platform, a),
{
    if !platform.supports(crate::gateway::required_capability(&operation_of(cmd))) {
        return Action::Finish(degraded_result(cmd));
    }
    Action::Invoke(operation_of(cmd))
}

/// The executable form of [`operation_spec`].
fn operation_of(cmd: &Command) -> (op: Operation)
    ensures
        op == operation_spec(*cmd),
{
    match cmd {
        Command::CheckNotificationPermission => Operation::IsNotificationListenerEnabled,
        Command::OpenNotificationSettings => Operation::OpenNotificationListenerSettings,
        Command::CheckAppNotificationPermission => Operation::CheckAppNotificationPermission,
        Command::RequestAppNotificationPermission => Operation::RequestAppNotificationPermission,
        Command::OpenAppNotificationSettings => Operation::OpenAppNotificationSettings,
        Command::SimulateAppPaymentNotification { title, body } => Operation::SimulatePaymentNotification {
            title: title.clone(),
            body: body.clone(),
        },
        Command::GetPendingNotifications => Operation::ResolvePrivateStorageDir,
        Command::ClearPendingNotifications => Operation::ResolvePrivateStorageDir,
        Command::GetNotificationServiceStatus => Operation::GetListenerHeartbeat,
        Command::PingNotificationListenerService => Operation::PingListenerService,
        Command::CheckBatteryOptimizationDisabled => Operation::IsBatteryOptimizationDisabled,
        Command::OpenBatteryOptimizationSettings => Operation::OpenBatteryOptimizationSettings,
        Command::CheckAutostartEnabled => Operation::IsAutostartEnabled,
        Command::OpenAutostartSettings => Operation::OpenAutostartSettings,
        Command::GetFcmToken => Operation::ReadStoreValue {
            store: StoreName::PushMessaging,
            key: StoreKey::PushToken,
        },
        Command::GetPendingNavigation => Operation::ReadStoreValue {
            store: StoreName::Application,
            key: StoreKey::PendingNavigation,
        },
        Command::ClearPendingNavigation => Operation::RemoveStoreKey {
            store: StoreName::Application,
            key: StoreKey::PendingNavigation,
        },
    }
}

/// Whether `r` is the response a successful platform value `v` settles the
/// command with. A value of an unexpected shape is surfaced as an error,
/// never coerced.
pub open spec fn success_result_spec(cmd: Command, v: GatewayValue, r: Result<
    Reply,
    String,
>) -> bool {
    match cmd {
        Command::CheckNotificationPermission => flag_to_permission(v, r),
        Command::CheckAppNotificationPermission => flag_to_permission(v, r),
        Command::RequestAppNotificationPermission => flag_to_permission(v, r),
        Command::OpenNotificationSettings => unit_to_ack(v, r),
        Command::OpenAppNotificationSettings => unit_to_ack(v, r),
        Command::OpenBatteryOptimizationSettings => unit_to_ack(v, r),
        Command::OpenAutostartSettings => unit_to_ack(v, r),
        Command::SimulateAppPaymentNotification { .. } => unit_to_ack(v, r),
        Command::PingNotificationListenerService => unit_to_ack(v, r),
        Command::GetNotificationServiceStatus => match v {
            GatewayValue::Millis(ms) => r == Ok::<Reply, String>(
                Reply::Status(NotificationServiceStatus { last_heartbeat: ms }),
            ),
            _ => shape_mismatch(r),
        },
        Command::CheckBatteryOptimizationDisabled => match v {
            GatewayValue::Flag(b) => r == Ok::<Reply, String>(Reply::Flag(b)),
            _ => shape_mismatch(r),
        },
        Command::CheckAutostartEnabled => match v {
            GatewayValue::Flag(b) => r == Ok::<Reply, String>(Reply::Flag(b)),
            _ => shape_mismatch(r),
        },
        Command::GetFcmToken => text_to_stored(v, r),
        Command::GetPendingNavigation => text_to_stored(v, r),
        Command::GetPendingNotifications => true,
        Command::ClearPendingNotifications => true,
        Command::ClearPendingNavigation => true,
    }
}

/// A boolean platform value settles a permission command.
pub open spec fn flag_to_permission(v: GatewayValue, r: Result<Reply, String>) -> bool {
    match v {
        GatewayValue::Flag(granted) => r == Ok::<Reply, String>(Reply::Permission(PermissionStatus { granted })),
        _ => shape_mismatch(r),
    }
}

/// A unit platform value settles an acknowledgement command.
pub open spec fn unit_to_ack(v: GatewayValue, r: Result<Reply, String>) -> bool {
    match v {
        GatewayValue::Unit => r == Ok::<Reply, String>(Reply::Ack),
        _ => shape_mismatch(r),
    }
}

/// A text platform value settles a store read, normalized: the
/// empty-string sentinel becomes `None`, anything else `Some` unchanged.
pub open spec fn text_to_stored(v: GatewayValue, r: Result<Reply, String>) -> bool {
    match v {
        GatewayValue::Text(s) => r matches Ok(reply) && reply matches Reply::StoredText(t)
            && normalized_value(s@, t),
        _ => shape_mismatch(r),
    }
}

/// The response to a platform value of an unexpected shape.
pub open spec fn shape_mismatch(r: Result<Reply, String>) -> bool {
    r matches Err(m) && m@ == shape_error_view()
}

/// Whether `r` is the response the command's platform outcome settles it
/// with: the degraded value on an unsupported platform, the stage's error
/// text on a failure (never retried), and the typed response on success.
pub open spec fn conclude_spec(cmd: Command, o: GatewayOutcome, r: Result<Reply, String>) -> bool {
    match o {
        GatewayOutcome::Unsupported => degraded_result_spec(cmd, r),
        GatewayOutcome::Failure { stage, detail } => r matches Err(m) && m@ == stage_prefix(stage)
            + detail@,
        GatewayOutcome::Success(v) => success_result_spec(cmd, v, r),
    }
}

/// Command dispatch, second half: settle a single-call command from its
/// platform outcome.
pub fn conclude(cmd: &Command, outcome: GatewayOutcome) -> (r: Result<Reply, String>)
    requires
        single_call_command(*cmd),
    ensures
        conclude_spec(*cmd, outcome, r),
{
    let v = match outcome {
        GatewayOutcome::Unsupported => {
            return degraded_result(cmd);
        },
        GatewayOutcome::Failure { stage, detail } => {
            return Err(failure_message(stage, detail.as_str()));
        },
        GatewayOutcome::Success(v) => v,
    };
    match cmd {
        Command::CheckNotificationPermission | Command::CheckAppNotificationPermission
            | Command::RequestAppNotificationPermission => match v {
            GatewayValue::Flag(granted) => Ok(Reply::Permission(PermissionStatus { granted })),
            _ => Err(shape_error_message()),
        },
        Command::OpenNotificationSettings | Command::OpenAppNotificationSettings
            | Command::OpenBatteryOptimizationSettings | Command::OpenAutostartSettings
            | Command::SimulateAppPaymentNotification { .. }
            | Command::PingNotificationListenerService => match v {
            GatewayValue::Unit => Ok(Reply::Ack),
            _ => Err(shape_error_message()),
        },
        Command::GetNotificationServiceStatus => match v {
            GatewayValue::Millis(ms) => Ok(
                Reply::Status(NotificationServiceStatus { last_heartbeat: ms }),
            ),
            _ => Err(shape_error_message()),
        },
        Command::CheckBatteryOptimizationDisabled | Command::CheckAutostartEnabled => match v {
            GatewayValue::Flag(b) => Ok(Reply::Flag(b)),
            _ => Err(shape_error_message()),
        },
        Command::GetFcmToken | Command::GetPendingNavigation => match v {
            GatewayValue::Text(s) => Ok(Reply::StoredText(normalize_store_value(s))),
            _ => Err(shape_error_message()),
        },
        Command::GetPendingNotifications | Command::ClearPendingNotifications
            | Command::ClearPendingNavigation => Err(shape_error_message()),
    }
}

/// Law: on a platform lacking the capability, every command finishes with
/// its documented degraded value and no platform operation is ever
/// requested.
pub proof fn lemma_unsupported_commands_degrade(cmd: Command, platform: Platform, a: Action)
    requires
        !platform.has_managed_runtime,
        plan_spec(cmd, platform, a),
    ensures
        a matches Action::Finish(r) && degraded_result_spec(cmd, r),
        !(a is Invoke),
{
}

} // verus!
