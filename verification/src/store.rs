//! The push-token / navigation store.
//!
//! The push-messaging receiver persists a registration token and a
//! one-shot deferred-navigation instruction in the platform's key-value
//! preference stores. The bridge reads them by key with an empty-string
//! default — the store has no native optional type, so the empty string is
//! the absence sentinel and is normalized to `None` here — and consumes
//! the navigation instruction by removing its key and committing the edit.

use vstd::prelude::*;

use crate::gateway::{
    failure_message, shape_error_message, shape_error_view, stage_prefix, GatewayOutcome,
    GatewayValue, Operation, StoreName,
};

verus! {

/// Whether `r` is the normalized form of the raw store value `raw`: the
/// empty-string sentinel means absent, anything else is present unchanged.
pub open spec fn normalized_value(raw: Seq<char>, r: Option<String>) -> bool {
    if raw.len() == 0 {
        r is None
    } else {
        r matches Some(v) && v@ == raw
    }
}

/// Normalizes a value read from the store with the empty-string default:
/// `None` exactly when the store held nothing (or the empty string),
/// `Some` of the unchanged value otherwise.
pub fn normalize_store_value(raw: String) -> (r: Option<String>)
    ensures
        normalized_value(raw@, r),
{
    if raw.as_str().is_empty() {
        None
    } else {
        Some(raw)
    }
}

/// The store as the bridge models it: the keys that are present and their
/// values.
pub open spec fn store_read(store: Map<Seq<char>, Seq<char>>, key: Seq<char>) -> Seq<char> {
    if store.dom().contains(key) {
        store[key]
    } else {
        Seq::empty()
    }
}

/// The store after the bridge removes a key; removing an absent key is
/// accepted by the platform store and leaves it unchanged.
pub open spec fn store_after_remove(
    store: Map<Seq<char>, Seq<char>>,
    key: Seq<char>,
) -> Map<Seq<char>, Seq<char>> {
    store.remove(key)
}

/// Law: clearing the navigation key is idempotent — a second removal
/// leaves the store exactly as the first did.
pub proof fn lemma_clear_navigation_idempotent(store: Map<Seq<char>, Seq<char>>, key: Seq<char>)
    ensures
        store_after_remove(store_after_remove(store, key), key) =~= store_after_remove(store, key),
{
}

/// Law: once a key is removed, a read comes back as the empty-string
/// sentinel, and every normalization of that read is `None` — a consumed
/// navigation instruction is never handed out again.
pub proof fn lemma_removed_key_reads_none(
    store: Map<Seq<char>, Seq<char>>,
    key: Seq<char>,
    r: Option<String>,
)
    requires
        normalized_value(store_read(store_after_remove(store, key), key), r),
    ensures
        r is None,
{
}

/// The continuation of a navigation clear after the key-removal call.
pub enum NavClearStep {
    /// The clear is settled with this result.
    Settle(Result<(), String>),
    /// The removal took; commit it with this operation.
    Apply(Operation),
}

/// Interprets the outcome of the key-removal platform call. On an
/// unsupported platform the clear degrades to a successful no-op; a failed
/// removal is surfaced, not swallowed, since a stuck navigation key would
/// re-trigger the same navigation on every read.
pub fn clear_navigation_after_remove(outcome: GatewayOutcome) -> (s: NavClearStep)
    ensures
        outcome is Unsupported ==> (s matches NavClearStep::Settle(r) && r is Ok),
        outcome matches GatewayOutcome::Failure { stage, detail } ==> (s
            matches NavClearStep::Settle(r) && r matches Err(m) && m@ == stage_prefix(stage)
            + detail@),
        outcome matches GatewayOutcome::Success(v) ==> match v {
            GatewayValue::Unit => s matches NavClearStep::Apply(op) && op == (Operation::ApplyStoreEdits {
                store: StoreName::Application,
            }),
            _ => s matches NavClearStep::Settle(r) && r matches Err(m) && m@ == shape_error_view(),
        },
{
    match outcome {
        GatewayOutcome::Unsupported => NavClearStep::Settle(Ok(())),
        GatewayOutcome::Failure { stage, detail } => NavClearStep::Settle(
            Err(failure_message(stage, detail.as_str())),
        ),
        GatewayOutcome::Success(GatewayValue::Unit) => NavClearStep::Apply(
            Operation::ApplyStoreEdits { store: StoreName::Application },
        ),
        GatewayOutcome::Success(_) => NavClearStep::Settle(Err(shape_error_message())),
    }
}

/// Settles a navigation clear after the commit call: the clear succeeds
/// exactly when the commit did (or the platform lacks the capability).
pub fn clear_navigation_after_apply(outcome: GatewayOutcome) -> (r: Result<(), String>)
    ensures
        r is Ok <==> (outcome is Unsupported || outcome == GatewayOutcome::Success(
            GatewayValue::Unit,
        )),
        outcome matches GatewayOutcome::Failure { stage, detail } ==> (r matches Err(m) && m@
            == stage_prefix(stage) + detail@),
{
    match outcome {
        GatewayOutcome::Unsupported => Ok(()),
        GatewayOutcome::Failure { stage, detail } => Err(failure_message(stage, detail.as_str())),
        GatewayOutcome::Success(v) => match v {
            GatewayValue::Unit => Ok(()),
            _ => Err(shape_error_message()),
        },
    }
}

} // verus!
