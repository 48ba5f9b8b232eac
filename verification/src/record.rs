//! The pending-notification record model.
//!
//! The external listener service appends notification records to a JSON
//! array file. This module models what the bridge reads of that file: a
//! document is an array of items, an item is a record of named fields, and
//! a field holds a string, an integer, or something the bridge does not
//! read. Parsing the raw text is delegated to the JSON library behind one
//! trusted wrapper; everything the bridge decides about the parsed
//! document — the type filter, the mandatory-field check, the order of the
//! retained entries — is verified here.

use vstd::prelude::*;
use vstd::string::StrSliceExecFns;

use crate::text::str_eq;

verus! {

/// One notification record retained from the queue file.
#[derive(Clone, Debug, PartialEq)]
pub struct PendingNotification {
    pub package_name: String,
    pub title: String,
    pub text: String,
    pub timestamp: i64,
    pub notification_type: Option<String>,
}

/// What a record field holds, as far as the bridge reads it.
#[derive(Clone, Debug, PartialEq)]
pub enum FieldValue {
    /// A JSON string.
    Text(String),
    /// A JSON number representable as a signed 64-bit integer.
    Integer(i64),
    /// Any other JSON value; the bridge never reads inside it.
    Other,
}

/// One element of the queue file's top-level array.
#[derive(Clone, Debug, PartialEq)]
pub enum QueueItem {
    /// A JSON object, flattened to its named fields.
    Record(Vec<(String, FieldValue)>),
    /// An element that is not an object; it never yields an entry.
    Scalar,
}

/// A parsed queue document.
#[derive(Clone, Debug, PartialEq)]
pub enum QueueDoc {
    /// The top-level value was an array.
    Array(Vec<QueueItem>),
    /// The top-level value was valid JSON but not an array.
    NonArray,
}

/// The document a text parses to, or `None` when the text is not valid
/// JSON. Named rather than defined: what counts as valid JSON is the JSON
/// library's grammar, and the result depends on the text alone.
pub uninterp spec fn queue_doc_of(text: Seq<char>) -> Option<QueueDoc>;

/// Relies on `serde_json::from_str` and the `serde_json::Value` accessors
/// `as_array`, `as_object`, `as_str` and `as_i64`: the parsed document is
/// a function of the text alone. Record fields that hold neither a string
/// nor an i64-representable number become [`FieldValue::Other`]; array
/// elements that are not objects become [`QueueItem::Scalar`]; duplicate
/// keys are resolved by the JSON library (last occurrence wins) before the
/// record is flattened. The error text is the JSON library's description
/// of the syntax fault.
#[verifier::external_body]
pub(crate) fn parse_queue_text(content: &str) -> (r: Result<QueueDoc, String>)
    ensures
        r matches Ok(d) ==> queue_doc_of(content@) == Some(d),
        r is Ok <==> queue_doc_of(content@) is Some,
{
    let value: serde_json::Value = serde_json::from_str(content).map_err(|e| format!("{:?}", e))?;
    let items = match value.as_array() {
        Some(a) => a,
        None => return Ok(QueueDoc::NonArray),
    };
    Ok(QueueDoc::Array(items.iter().map(|item| match item.as_object() {
        Some(fields) => QueueItem::Record(fields.iter().map(|field| (field.0.clone(),
            match (field.1.as_str(), field.1.as_i64()) {
                (Some(s), _) => FieldValue::Text(s.to_string()),
                (None, Some(n)) => FieldValue::Integer(n),
                _ => FieldValue::Other,
            })).collect()),
        None => QueueItem::Scalar,
    }).collect()))
}

/// The value of the first field named `key`, or `None` when no field is.
pub open spec fn field_lookup(fields: Seq<(String, FieldValue)>, key: Seq<char>) -> Option<
    FieldValue,
>
    decreases fields.len(),
{
    if fields.len() == 0 {
        None
    } else if fields[0].0@ == key {
        Some(fields[0].1)
    } else {
        field_lookup(fields.drop_first(), key)
    }
}

/// The string held by the item's field named `key`, if the item is a
/// record, the field is present and it holds a string.
pub open spec fn text_field(item: QueueItem, key: Seq<char>) -> Option<String> {
    match item {
        QueueItem::Record(fields) => match field_lookup(fields@, key) {
            Some(FieldValue::Text(s)) => Some(s),
            _ => None,
        },
        QueueItem::Scalar => None,
    }
}

/// The integer held by the item's field named `key`, under the same
/// conditions as [`text_field`].
pub open spec fn integer_field(item: QueueItem, key: Seq<char>) -> Option<i64> {
    match item {
        QueueItem::Record(fields) => match field_lookup(fields@, key) {
            Some(FieldValue::Integer(n)) => Some(n),
            _ => None,
        },
        QueueItem::Scalar => None,
    }
}

/// The item's notification type tag, when it carries one as a string.
pub open spec fn type_tag(item: QueueItem) -> Option<String> {
    text_field(item, "notificationType"@)
}

/// Whether the item survives the type filter. An item without a type tag
/// predates the tagged schema and is deliberately retained unfiltered.
pub open spec fn passes_filter(item: QueueItem, filter: Option<Seq<char>>) -> bool {
    match filter {
        None => true,
        Some(wanted) => match type_tag(item) {
            None => true,
            Some(tag) => tag@ == wanted,
        },
    }
}

/// The entry an item yields, or `None` when a mandatory field is missing
/// or mistyped. Such items are dropped silently, never an error.
pub open spec fn entry_of(item: QueueItem) -> Option<PendingNotification> {
    match (
        text_field(item, "packageName"@),
        text_field(item, "title"@),
        text_field(item, "text"@),
        integer_field(item, "timestamp"@),
    ) {
        (Some(package_name), Some(title), Some(text), Some(timestamp)) => Some(
            PendingNotification {
                package_name,
                title,
                text,
                timestamp,
                notification_type: type_tag(item),
            },
        ),
        _ => None,
    }
}

/// The entries one item contributes: at most one.
pub open spec fn entries_of_item(item: QueueItem, filter: Option<Seq<char>>) -> Seq<
    PendingNotification,
> {
    if passes_filter(item, filter) {
        match entry_of(item) {
            Some(entry) => seq![entry],
            None => Seq::empty(),
        }
    } else {
        Seq::empty()
    }
}

/// The entries retained from the items, in the on-disk array order.
pub open spec fn selected_entries(items: Seq<QueueItem>, filter: Option<Seq<char>>) -> Seq<
    PendingNotification,
>
    decreases items.len(),
{
    if items.len() == 0 {
        Seq::empty()
    } else {
        entries_of_item(items[0], filter) + selected_entries(items.drop_first(), filter)
    }
}

/// The entries a whole document yields: a document that is not an array
/// yields none.
pub open spec fn document_entries(doc: QueueDoc, filter: Option<Seq<char>>) -> Seq<
    PendingNotification,
> {
    match doc {
        QueueDoc::Array(items) => selected_entries(items@, filter),
        QueueDoc::NonArray => Seq::empty(),
    }
}

/// The view of an optional filter string.
pub open spec fn filter_view(filter: Option<&str>) -> Option<Seq<char>> {
    match filter {
        Some(f) => Some(f@),
        None => None,
    }
}

/// Selection distributes over concatenation of item sequences.
proof fn lemma_selected_entries_append(
    a: Seq<QueueItem>,
    b: Seq<QueueItem>,
    filter: Option<Seq<char>>,
)
    ensures
        selected_entries(a + b, filter) == selected_entries(a, filter) + selected_entries(
            b,
            filter,
        ),
    decreases a.len(),
{
    if a.len() == 0 {
        assert(a + b =~= b);
        assert(selected_entries(a, filter) + selected_entries(b, filter) =~= selected_entries(
            b,
            filter,
        ));
    } else {
        assert((a + b).drop_first() =~= a.drop_first() + b);
        lemma_selected_entries_append(a.drop_first(), b, filter);
        assert(selected_entries(a + b, filter) =~= selected_entries(a, filter)
            + selected_entries(b, filter));
    }
}

fn lookup_field<'a>(fields: &'a Vec<(String, FieldValue)>, key: &str) -> (r: Option<
    &'a FieldValue,
>)
    ensures
        match r {
            Some(v) => field_lookup(fields@, key@) == Some(*v),
            None => field_lookup(fields@, key@) is None,
        },
{
    let mut i: usize = 0;
    assert(fields@.skip(0) =~= fields@);
    while i < fields.len()
        invariant
            i <= fields@.len(),
            field_lookup(fields@, key@) == field_lookup(fields@.skip(i as int), key@),
        decreases fields@.len() - i,
    {
        assert(fields@.skip(i as int)[0] == fields@[i as int]);
        if str_eq(fields[i].0.as_str(), key) {
            return Some(&fields[i].1);
        }
        assert(fields@.skip(i as int).drop_first() =~= fields@.skip(i + 1));
        i = i + 1;
    }
    assert(fields@.skip(i as int).len() == 0);
    None
}

fn item_text_field<'a>(item: &'a QueueItem, key: &str) -> (r: Option<&'a String>)
    ensures
        match r {
            Some(s) => text_field(*item, key@) == Some(*s),
            None => text_field(*item, key@) is None,
        },
{
    match item {
        QueueItem::Record(fields) => match lookup_field(fields, key) {
            Some(FieldValue::Text(s)) => Some(s),
            _ => None,
        },
        QueueItem::Scalar => None,
    }
}

fn item_integer_field(item: &QueueItem, key: &str) -> (r: Option<i64>)
    ensures
        r == integer_field(*item, key@),
{
    match item {
        QueueItem::Record(fields) => match lookup_field(fields, key) {
            Some(FieldValue::Integer(n)) => Some(*n),
            _ => None,
        },
        QueueItem::Scalar => None,
    }
}

fn item_passes_filter(item: &QueueItem, filter: Option<&str>) -> (r: bool)
    ensures
        r == passes_filter(*item, filter_view(filter)),
{
    match filter {
        None => true,
        Some(wanted) => match item_text_field(item, "notificationType") {
            None => true,
            Some(tag) => str_eq(tag.as_str(), wanted),
        },
    }
}

fn entry_from_item(item: &QueueItem) -> (r: Option<PendingNotification>)
    ensures
        r == entry_of(*item),
{
    let package_name = item_text_field(item, "packageName");
    let title = item_text_field(item, "title");
    let text = item_text_field(item, "text");
    let timestamp = item_integer_field(item, "timestamp");
    match (package_name, title, text, timestamp) {
        (Some(package_name), Some(title), Some(text), Some(timestamp)) => {
            let notification_type = match item_text_field(item, "notificationType") {
                Some(tag) => Some(tag.clone()),
                None => None,
            };
            Some(
                PendingNotification {
                    package_name: package_name.clone(),
                    title: title.clone(),
                    text: text.clone(),
                    timestamp,
                    notification_type,
                },
            )
        },
        _ => None,
    }
}

/// The entries retained from a parsed document under the given type
/// filter: per item, the filter of [`passes_filter`] first, then the
/// mandatory-field check of [`entry_of`]; retained entries keep the
/// document order.
pub fn select_entries(doc: &QueueDoc, filter: Option<&str>) -> (out: Vec<PendingNotification>)
    ensures
        out@ == document_entries(*doc, filter_view(filter)),
{
    let mut out: Vec<PendingNotification> = Vec::new();
    let items = match doc {
        QueueDoc::Array(items) => items,
        QueueDoc::NonArray => {
            return out;
        },
    };
    let ghost gfilter = filter_view(filter);
    let mut i: usize = 0;
    while i < items.len()
        invariant
            i <= items@.len(),
            gfilter == filter_view(filter),
            out@ == selected_entries(items@.take(i as int), gfilter),
        decreases items@.len() - i,
    {
        if item_passes_filter(&items[i], filter) {
            if let Some(entry) = entry_from_item(&items[i]) {
                out.push(entry);
            }
        }
        proof {
            assert(items@.take(i + 1) =~= items@.take(i as int) + seq![items@[i as int]]);
            lemma_selected_entries_append(items@.take(i as int), seq![items@[i as int]], gfilter);
            assert(seq![items@[i as int]].drop_first() =~= Seq::<QueueItem>::empty());
            assert(selected_entries(Seq::<QueueItem>::empty(), gfilter) =~= Seq::<
                PendingNotification,
            >::empty());
            assert(selected_entries(seq![items@[i as int]], gfilter) =~= entries_of_item(
                items@[i as int],
                gfilter,
            ));
        }
        i = i + 1;
    }
    assert(items@.take(i as int) =~= items@);
    out
}

} // verus!
