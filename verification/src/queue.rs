//! The pending-event queue store.
//!
//! The external listener service appends notification records to one JSON
//! array file in the process's private storage; this bridge reads the file
//! and clears it wholesale, never partially. The host layer resolves the
//! directory (a platform call), reads or overwrites the file, and hands
//! the outcomes in; every decision — which outcome is an error, which
//! entries are retained, what a clear writes — is made and verified here.

use vstd::prelude::*;
use vstd::string::StringExecFns;

use crate::gateway::{
    stage_prefix, shape_error_view, shape_error_message, failure_message, GatewayOutcome,
    GatewayValue,
};
use crate::record::{
    document_entries, filter_view, queue_doc_of, select_entries, parse_queue_text,
    PendingNotification,
};
use crate::text::str_eq;

verus! {

/// The name of the queue file inside the private storage directory.
pub open spec fn queue_file_view() -> Seq<char> {
    "pending_notifications.json"@
}

/// Executable form of [`queue_file_view`].
pub fn queue_file_name() -> (r: &'static str)
    ensures
        r@ == queue_file_view(),
{
    "pending_notifications.json"
}

/// The text a clear leaves in the queue file: an empty JSON array.
pub open spec fn cleared_queue_view() -> Seq<char> {
    "[]"@
}

/// Executable form of [`cleared_queue_view`].
pub fn cleared_queue_text() -> (r: String)
    ensures
        r@ == cleared_queue_view(),
{
    String::from_str("[]")
}

/// The type tag the bridge's payment filter retains.
pub open spec fn payment_tag_view() -> Seq<char> {
    "PAYMENT"@
}

/// Executable form of [`payment_tag_view`].
pub fn payment_tag() -> (r: &'static str)
    ensures
        r@ == payment_tag_view(),
{
    "PAYMENT"
}

/// How far the host layer got with the directory resolution that precedes
/// a queue read or clear.
pub enum DirResolution {
    /// The platform lacks the capability; take the degraded branch.
    Degraded,
    /// The private storage directory.
    Dir(String),
    /// The resolution failed; the error text to surface.
    Fail(String),
}

/// Interprets the outcome of the storage-directory platform call.
pub fn resolve_dir_step(outcome: GatewayOutcome) -> (s: DirResolution)
    ensures
        outcome is Unsupported ==> s is Degraded,
        outcome matches GatewayOutcome::Failure { stage, detail } ==> (s
            matches DirResolution::Fail(m) && m@ == stage_prefix(stage) + detail@),
        outcome matches GatewayOutcome::Success(v) ==> match v {
            GatewayValue::Text(d) => s matches DirResolution::Dir(p) && p@ == d@,
            _ => s matches DirResolution::Fail(m) && m@ == shape_error_view(),
        },
{
    match outcome {
        GatewayOutcome::Unsupported => DirResolution::Degraded,
        GatewayOutcome::Failure { stage, detail } => DirResolution::Fail(
            failure_message(stage, detail.as_str()),
        ),
        GatewayOutcome::Success(GatewayValue::Text(d)) => DirResolution::Dir(d),
        GatewayOutcome::Success(_) => DirResolution::Fail(shape_error_message()),
    }
}

/// What the queue read came to, once the host layer has resolved the
/// directory and looked for the file.
pub enum QueueAccess {
    /// The platform lacks the capability.
    Unsupported,
    /// Directory resolution failed with this surfaced error text.
    ResolveFailed(String),
    /// The queue file does not exist.
    Absent,
    /// The queue file's text.
    Data(String),
    /// The file exists but reading it failed; the host's description.
    ReadError(String),
}

/// The error-text prefix for a failed queue file read.
pub open spec fn read_error_prefix() -> Seq<char> {
    "Failed to read notifications file: "@
}

/// The error-text prefix for a queue file whose text is not valid JSON.
pub open spec fn parse_error_prefix() -> Seq<char> {
    "Failed to parse JSON: "@
}

/// The error-text prefix for a failed queue clear.
pub open spec fn clear_error_prefix() -> Seq<char> {
    "Failed to clear notifications file: "@
}

/// The entries a queue file yields under a filter, or `None` when the file
/// text is malformed JSON. An absent file and an empty file both yield the
/// empty sequence; so does the cleared text, without consulting the JSON
/// grammar.
pub open spec fn listed_entries(
    file: Option<Seq<char>>,
    filter: Option<Seq<char>>,
) -> Option<Seq<PendingNotification>> {
    match file {
        None => Some(Seq::empty()),
        Some(text) => if text.len() == 0 {
            Some(Seq::empty())
        } else if text == cleared_queue_view() {
            Some(Seq::empty())
        } else {
            match queue_doc_of(text) {
                None => None,
                Some(doc) => Some(document_entries(doc, filter)),
            }
        },
    }
}

/// Lists the pending notifications from a queue access outcome.
///
/// The call errs exactly on a failed resolution, a failed read, or a file
/// whose text is malformed JSON; an absent or empty file is an empty list,
/// and entries that fail the type filter or the mandatory-field check are
/// dropped silently.
pub fn list_pending(access: QueueAccess, filter: Option<&str>) -> (r: Result<
    Vec<PendingNotification>,
    String,
>)
    ensures
        access matches QueueAccess::Unsupported ==> (r matches Ok(v) && v@ == Seq::<
            PendingNotification,
        >::empty()),
        access matches QueueAccess::ResolveFailed(m) ==> (r matches Err(e) && e@ == m@),
        access matches QueueAccess::Absent ==> (r matches Ok(v) && v@ == Seq::<
            PendingNotification,
        >::empty()),
        access matches QueueAccess::ReadError(d) ==> (r matches Err(e) && e@ == read_error_prefix()
            + d@),
        access matches QueueAccess::Data(s) ==> match listed_entries(Some(s@), filter_view(filter)) {
            Some(entries) => r matches Ok(v) && v@ == entries,
            None => r matches Err(m) && m@.len() >= parse_error_prefix().len() && m@.subrange(
                0,
                parse_error_prefix().len() as int,
            ) == parse_error_prefix(),
        },
{
    match access {
        QueueAccess::Unsupported => Ok(Vec::new()),
        QueueAccess::ResolveFailed(m) => Err(m),
        QueueAccess::Absent => Ok(Vec::new()),
        QueueAccess::ReadError(d) => {
            let mut e = String::from_str("Failed to read notifications file: ");
            e.append(d.as_str());
            Err(e)
        },
        QueueAccess::Data(s) => {
            if s.as_str().is_empty() {
                return Ok(Vec::new());
            }
            if str_eq(s.as_str(), "[]") {
                return Ok(Vec::new());
            }
            match parse_queue_text(s.as_str()) {
                Ok(doc) => Ok(select_entries(&doc, filter)),
                Err(detail) => {
                    let mut e = String::from_str("Failed to parse JSON: ");
                    e.append(detail.as_str());
                    proof {
                        assert(e@.subrange(0, parse_error_prefix().len() as int)
                            =~= parse_error_prefix());
                    }
                    Err(e)
                },
            }
        },
    }
}

/// What the queue clear came to once the host layer has resolved the
/// directory and overwritten the file if it existed.
pub enum QueueClearOutcome {
    /// The platform lacks the capability; clearing degrades to a no-op.
    Unsupported,
    /// Directory resolution failed with this surfaced error text.
    ResolveFailed(String),
    /// The queue file did not exist; nothing to clear.
    NothingToClear,
    /// The file was overwritten with the cleared text.
    Wrote,
    /// The overwrite failed; the host's description.
    WriteError(String),
}

/// Settles a queue clear.
///
/// Clearing succeeds exactly when nothing stood in the way of the
/// overwrite: on an unsupported platform, on an absent file (clearing is
/// idempotent), and after a successful overwrite.
pub fn clear_pending(outcome: QueueClearOutcome) -> (r: Result<(), String>)
    ensures
        r is Ok <==> (outcome is Unsupported || outcome is NothingToClear || outcome is Wrote),
        outcome matches QueueClearOutcome::ResolveFailed(m) ==> (r matches Err(e) && e@ == m@),
        outcome matches QueueClearOutcome::WriteError(d) ==> (r matches Err(e) && e@
            == clear_error_prefix() + d@),
{
    match outcome {
        QueueClearOutcome::Unsupported => Ok(()),
        QueueClearOutcome::NothingToClear => Ok(()),
        QueueClearOutcome::Wrote => Ok(()),
        QueueClearOutcome::ResolveFailed(m) => Err(m),
        QueueClearOutcome::WriteError(d) => {
            let mut e = String::from_str("Failed to clear notifications file: ");
            e.append(d.as_str());
            Err(e)
        },
    }
}

/// The queue file after a clear: an absent file stays absent, a present
/// file holds the cleared text.
pub open spec fn queue_after_clear(file: Option<Seq<char>>) -> Option<Seq<char>> {
    match file {
        None => None,
        Some(_) => Some(cleared_queue_view()),
    }
}

/// Law: listing an absent or empty queue file yields the empty sequence,
/// never an error, whatever filter is active.
pub proof fn lemma_list_absent_or_empty(file: Option<Seq<char>>, filter: Option<Seq<char>>)
    requires
        file is None || (file matches Some(text) && text.len() == 0),
    ensures
        listed_entries(file, filter) == Some(Seq::<PendingNotification>::empty()),
{
}

/// Law: a clear followed by a list yields the empty sequence, whatever the
/// file held and whatever filter is active; and clearing twice leaves the
/// file as one clear does.
pub proof fn lemma_cleared_queue_lists_empty(file: Option<Seq<char>>, filter: Option<Seq<char>>)
    ensures
        listed_entries(queue_after_clear(file), filter) == Some(Seq::<
            PendingNotification,
        >::empty()),
        queue_after_clear(queue_after_clear(file)) == queue_after_clear(file),
{
}

} // verus!
