//! Platform call gateway model.
//!
//! Every bridge command performs at most a handful of named operations
//! against the host platform's managed runtime. The host layer carries the
//! operations out; this module fixes the vocabulary: which operations
//! exist, which capability each one needs, the shapes a call can return,
//! and the closed set of failure stages together with the error text each
//! stage produces.

use vstd::prelude::*;
use vstd::string::StringExecFns;

verus! {

/// The execution environment, as far as dispatch decisions depend on it.
/// Construction is left to the host layer, so a test harness can override
/// the platform identity at run time.
#[derive(Clone, Copy, Debug, PartialEq, Eq, Structural)]
pub struct Platform {
    /// Whether a managed runtime hosting the platform helpers is present.
    pub has_managed_runtime: bool,
}

/// A named platform feature a command may require.
#[derive(Clone, Copy, Debug, PartialEq, Eq, Structural)]
pub enum Capability {
    /// The managed-runtime notification helper class.
    NotificationHelper,
    /// The managed runtime's key-value preference store.
    PreferenceStore,
    /// The process's private storage directory.
    PrivateStorage,
}

/// Which preference store a store operation addresses.
#[derive(Clone, Copy, Debug, PartialEq, Eq, Structural)]
pub enum StoreName {
    /// The store maintained by the push-messaging receiver.
    PushMessaging,
    /// The application's own store, holding the deferred navigation key.
    Application,
}

/// A fixed key inside one of the preference stores.
#[derive(Clone, Copy, Debug, PartialEq, Eq, Structural)]
pub enum StoreKey {
    /// The push registration token.
    PushToken,
    /// The one-shot deferred-navigation instruction.
    PendingNavigation,
}

/// One named operation the gateway can perform against the platform.
#[derive(Clone, Debug, PartialEq)]
pub enum Operation {
    IsNotificationListenerEnabled,
    OpenNotificationListenerSettings,
    CheckAppNotificationPermission,
    RequestAppNotificationPermission,
    OpenAppNotificationSettings,
    SimulatePaymentNotification { title: String, body: String },
    GetListenerHeartbeat,
    PingListenerService,
    IsBatteryOptimizationDisabled,
    OpenBatteryOptimizationSettings,
    IsAutostartEnabled,
    OpenAutostartSettings,
    ResolvePrivateStorageDir,
    ReadStoreValue { store: StoreName, key: StoreKey },
    RemoveStoreKey { store: StoreName, key: StoreKey },
    ApplyStoreEdits { store: StoreName },
}

/// The typed value a successful platform call hands back.
#[derive(Clone, Debug, PartialEq)]
pub enum GatewayValue {
    /// The operation returns nothing.
    Unit,
    /// A boolean answer.
    Flag(bool),
    /// A signed 64-bit count of milliseconds.
    Millis(i64),
    /// A string, such as a resolved directory or a stored value.
    Text(String),
}

/// The stage of the gateway's acquisition order at which a call failed.
/// Failures are assumed non-transient and are never retried.
#[derive(Clone, Copy, Debug, PartialEq, Eq, Structural)]
pub enum FailureStage {
    /// Obtaining the managed runtime handle.
    AcquireRuntime,
    /// Attaching the calling thread to the runtime.
    AttachThread,
    /// Resolving the target class or method.
    ResolveTarget,
    /// Marshaling the call's arguments.
    MarshalArguments,
    /// The invocation itself.
    Invoke,
    /// Reading the typed result back out.
    UnmarshalResult,
}

/// What a platform call came back with.
#[derive(Clone, Debug, PartialEq)]
pub enum GatewayOutcome {
    /// The platform has no managed runtime; no acquisition was attempted.
    Unsupported,
    /// One acquisition stage failed; `detail` is the host layer's
    /// description of the underlying fault.
    Failure { stage: FailureStage, detail: String },
    /// The call succeeded with the given value.
    Success(GatewayValue),
}

impl Platform {
    /// Whether this platform supports the given capability. All modeled
    /// capabilities live in the managed runtime, so its presence decides.
    pub open spec fn spec_supports(self, capability: Capability) -> bool {
        self.has_managed_runtime
    }

    /// Capability detection: pure and side-effect free.
    pub fn supports(&self, capability: Capability) -> (r: bool)
        ensures
            r == self.spec_supports(capability),
    {
        self.has_managed_runtime
    }
}

/// The capability an operation needs before the gateway may attempt it.
pub open spec fn capability_of(op: Operation) -> Capability {
    match op {
        Operation::ResolvePrivateStorageDir => Capability::PrivateStorage,
        Operation::ReadStoreValue { .. } => Capability::PreferenceStore,
        Operation::RemoveStoreKey { .. } => Capability::PreferenceStore,
        Operation::ApplyStoreEdits { .. } => Capability::PreferenceStore,
        _ => Capability::NotificationHelper,
    }
}

/// Executable form of [`capability_of`].
pub fn required_capability(op: &Operation) -> (c: Capability)
    ensures
        c == capability_of(*op),
{
    match op {
        Operation::ResolvePrivateStorageDir => Capability::PrivateStorage,
        Operation::ReadStoreValue { .. } => Capability::PreferenceStore,
        Operation::RemoveStoreKey { .. } => Capability::PreferenceStore,
        Operation::ApplyStoreEdits { .. } => Capability::PreferenceStore,
        _ => Capability::NotificationHelper,
    }
}

/// The file name of a preference store.
pub open spec fn store_name_view(store: StoreName) -> Seq<char> {
    match store {
        StoreName::PushMessaging => "fcm_prefs"@,
        StoreName::Application => "app_prefs"@,
    }
}

/// Executable form of [`store_name_view`].
pub fn store_file_name(store: &StoreName) -> (r: &'static str)
    ensures
        r@ == store_name_view(*store),
{
    match store {
        StoreName::PushMessaging => "fcm_prefs",
        StoreName::Application => "app_prefs",
    }
}

/// The name of a key inside a preference store.
pub open spec fn store_key_view(key: StoreKey) -> Seq<char> {
    match key {
        StoreKey::PushToken => "fcm_token"@,
        StoreKey::PendingNavigation => "pending_navigation"@,
    }
}

/// Executable form of [`store_key_view`].
pub fn store_key_name(key: &StoreKey) -> (r: &'static str)
    ensures
        r@ == store_key_view(*key),
{
    match key {
        StoreKey::PushToken => "fcm_token",
        StoreKey::PendingNavigation => "pending_navigation",
    }
}

/// The fixed prefix of the error text a failure stage surfaces.
pub open spec fn stage_prefix(stage: FailureStage) -> Seq<char> {
    match stage {
        FailureStage::AcquireRuntime => "Failed to get JavaVM: "@,
        FailureStage::AttachThread => "Failed to attach thread: "@,
        FailureStage::ResolveTarget => "Failed to find helper class: "@,
        FailureStage::MarshalArguments => "Failed to marshal arguments: "@,
        FailureStage::Invoke => "Failed to call method: "@,
        FailureStage::UnmarshalResult => "Failed to read result: "@,
    }
}

/// The error string surfaced to the frontend for a failed platform call:
/// the stage's fixed prefix followed by the host layer's detail.
pub fn failure_message(stage: FailureStage, detail: &str) -> (r: String)
    ensures
        r@ == stage_prefix(stage) + detail@,
{
    let prefix: &'static str = match stage {
        FailureStage::AcquireRuntime => "Failed to get JavaVM: ",
        FailureStage::AttachThread => "Failed to attach thread: ",
        FailureStage::ResolveTarget => "Failed to find helper class: ",
        FailureStage::MarshalArguments => "Failed to marshal arguments: ",
        FailureStage::Invoke => "Failed to call method: ",
        FailureStage::UnmarshalResult => "Failed to read result: ",
    };
    let mut out = String::from_str(prefix);
    out.append(detail);
    out
}

/// The error text surfaced when a call succeeded but handed back a value
/// of a shape the command does not expect.
pub open spec fn shape_error_view() -> Seq<char> {
    stage_prefix(FailureStage::UnmarshalResult) + "unexpected value shape"@
}

/// Executable form of [`shape_error_view`].
pub fn shape_error_message() -> (r: String)
    ensures
        r@ == shape_error_view(),
{
    failure_message(FailureStage::UnmarshalResult, "unexpected value shape")
}

} // verus!
