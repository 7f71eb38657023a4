//! The response formatter: each response shape rendered as a fixed
//! human-readable block per item, a blank line between items, and no trailing
//! separator after the last item.
//!
//! The caller converts each remote response to the plain page types here and
//! prints what these functions return.

use vstd::prelude::*;

use crate::text::Hue;
use crate::text::paint;
use crate::text::spec_dec;
use crate::text::spec_paint;
use crate::text::u64_to_string;

verus! {

/// One datastore in a store listing.
#[derive(Debug, Clone)]
pub struct StoreInfo {
    pub name: String,
    pub created_time: String,
}

/// One page of a store listing.
#[derive(Debug, Clone)]
pub struct StoreListPage {
    pub datastores: Vec<StoreInfo>,
    pub next_page_cursor: Option<String>,
}

/// One entry in an entry listing.
#[derive(Debug, Clone)]
pub struct EntryInfo {
    pub key: String,
    pub scope: String,
}

/// One page of an entry listing.
#[derive(Debug, Clone)]
pub struct EntryListPage {
    pub keys: Vec<EntryInfo>,
    pub next_page_cursor: Option<String>,
}

/// One version in an entry-version listing. A deleted version is a tombstone:
/// kept, and marked rather than removed.
#[derive(Debug, Clone)]
pub struct VersionInfo {
    pub version: String,
    pub deleted: bool,
    pub content_length: u64,
    pub created_time: String,
    pub object_created_time: String,
}

/// One page of an entry-version listing.
#[derive(Debug, Clone)]
pub struct VersionListPage {
    pub versions: Vec<VersionInfo>,
    pub next_page_cursor: Option<String>,
}

/// The block one store renders as.
pub open spec fn spec_store_block(s: StoreInfo, is_last: bool) -> Seq<char> {
    spec_paint(Hue::Yellow, "datastore "@ + s.name@) + "\nCreated: "@ + s.created_time@ + (
    if is_last {
        Seq::<char>::empty()
    } else {
        "\n"@
    }) + "\n"@
}

/// The first `i` stores rendered.
pub open spec fn spec_store_list_to(items: Seq<StoreInfo>, i: int) -> Seq<char>
    decreases i,
{
    if i <= 0 {
        Seq::<char>::empty()
    } else {
        spec_store_list_to(items, i - 1) + spec_store_block(items[i - 1], i == items.len())
    }
}

/// A whole store listing rendered.
pub open spec fn spec_store_list(items: Seq<StoreInfo>) -> Seq<char> {
    spec_store_list_to(items, items.len() as int)
}

/// Render one page of a store listing.
pub fn format_datastore_list_store(page: &StoreListPage) -> (r: String)
    ensures
        r@ == spec_store_list(page.datastores@),
{
    let items = &page.datastores;
    let mut result = String::new();
    let mut i: usize = 0;
    while i < items.len()
        invariant
            i <= items@.len(),
            result@ == spec_store_list_to(items@, i as int),
        decreases items@.len() - i,
    {
        let mut label = String::new();
        label.append("datastore ");
        label.append(items[i].name.as_str());
        proof {
            assert(label@ =~= "datastore "@ + items@[i as int].name@);
        }
        let painted = paint(&Hue::Yellow, label.as_str());
        result.append(painted.as_str());
        result.append("\nCreated: ");
        result.append(items[i].created_time.as_str());
        if i + 1 < items.len() {
            result.append("\n");
        }
        result.append("\n");
        proof {
            assert(result@ =~= spec_store_list_to(items@, i as int + 1));
        }
        i = i + 1;
    }
    result
}

/// The block one entry renders as.
pub open spec fn spec_entry_block(e: EntryInfo, is_last: bool) -> Seq<char> {
    spec_paint(Hue::Yellow, "key "@ + e.key@) + "\nScope: "@ + e.scope@ + (
    if is_last {
        Seq::<char>::empty()
    } else {
        "\n"@
    }) + "\n"@
}

/// The first `i` entries rendered.
pub open spec fn spec_entry_list_to(items: Seq<EntryInfo>, i: int) -> Seq<char>
    decreases i,
{
    if i <= 0 {
        Seq::<char>::empty()
    } else {
        spec_entry_list_to(items, i - 1) + spec_entry_block(items[i - 1], i == items.len())
    }
}

/// A whole entry listing rendered.
pub open spec fn spec_entry_list(items: Seq<EntryInfo>) -> Seq<char> {
    spec_entry_list_to(items, items.len() as int)
}

/// Render one page of an entry listing.
pub fn format_datastore_list_entry(page: &EntryListPage) -> (r: String)
    ensures
        r@ == spec_entry_list(page.keys@),
{
    let items = &page.keys;
    let mut result = String::new();
    let mut i: usize = 0;
    while i < items.len()
        invariant
            i <= items@.len(),
            result@ == spec_entry_list_to(items@, i as int),
        decreases items@.len() - i,
    {
        let mut label = String::new();
        label.append("key ");
        label.append(items[i].key.as_str());
        proof {
            assert(label@ =~= "key "@ + items@[i as int].key@);
        }
        let painted = paint(&Hue::Yellow, label.as_str());
        result.append(painted.as_str());
        result.append("\nScope: ");
        result.append(items[i].scope.as_str());
        if i + 1 < items.len() {
            result.append("\n");
        }
        result.append("\n");
        proof {
            assert(result@ =~= spec_entry_list_to(items@, i as int + 1));
        }
        i = i + 1;
    }
    result
}

/// The status label of a version: a tombstone is being deleted, anything else
/// is active.
pub open spec fn spec_version_status(deleted: bool) -> Seq<char> {
    if deleted {
        spec_paint(Hue::Red, "DELETING"@)
    } else {
        spec_paint(Hue::Green, "ACTIVE"@)
    }
}

/// The block one version renders as.
pub open spec fn spec_version_block(v: VersionInfo, is_last: bool) -> Seq<char> {
    spec_paint(Hue::Yellow, "version "@ + v.version@) + " ("@ + spec_version_status(v.deleted)
        + ")\nLength:  "@ + spec_dec(v.content_length as nat) + "\nCreated: "@ + v.created_time@
        + "\n\n    Object Created: "@ + v.object_created_time@ + (
    if is_last {
        Seq::<char>::empty()
    } else {
        "\n"@
    }) + "\n"@
}

/// The first `i` versions rendered.
pub open spec fn spec_version_list_to(items: Seq<VersionInfo>, i: int) -> Seq<char>
    decreases i,
{
    if i <= 0 {
        Seq::<char>::empty()
    } else {
        spec_version_list_to(items, i - 1) + spec_version_block(items[i - 1], i == items.len())
    }
}

/// A whole version listing rendered.
pub open spec fn spec_version_list(items: Seq<VersionInfo>) -> Seq<char> {
    spec_version_list_to(items, items.len() as int)
}

/// Render one page of an entry-version listing.
pub fn format_datastore_list_entry_version(page: &VersionListPage) -> (r: String)
    ensures
        r@ == spec_version_list(page.versions@),
{
    let items = &page.versions;
    let mut result = String::new();
    let mut i: usize = 0;
    while i < items.len()
        invariant
            i <= items@.len(),
            result@ == spec_version_list_to(items@, i as int),
        decreases items@.len() - i,
    {
        let mut label = String::new();
        label.append("version ");
        label.append(items[i].version.as_str());
        proof {
            assert(label@ =~= "version "@ + items@[i as int].version@);
        }
        let status = if items[i].deleted {
            paint(&Hue::Red, "DELETING")
        } else {
            paint(&Hue::Green, "ACTIVE")
        };
        let length = u64_to_string(items[i].content_length);
        let painted = paint(&Hue::Yellow, label.as_str());
        result.append(painted.as_str());
        result.append(" (");
        result.append(status.as_str());
        result.append(")\nLength:  ");
        result.append(length.as_str());
        result.append("\nCreated: ");
        result.append(items[i].created_time.as_str());
        result.append("\n\n    Object Created: ");
        result.append(items[i].object_created_time.as_str());
        if i + 1 < items.len() {
            result.append("\n");
        }
        result.append("\n");
        proof {
            assert(result@ =~= spec_version_list_to(items@, i as int + 1));
        }
        i = i + 1;
    }
    result
}

/// A value that was asked for as pretty-printed JSON but does not parse as
/// JSON. Distinct from any remote failure: the fetch succeeded and only this
/// formatting step refused the value.
#[derive(Debug, Clone, Copy, PartialEq, Eq, Structural)]
pub enum FormatError {
    InvalidJson,
}

impl FormatError {
    /// The failure rendered as text.
    pub fn message(&self) -> (r: String)
        ensures
            r@ == "Value is not valid JSON"@,
    {
        "Value is not valid JSON".to_owned()
    }
}

/// The canonical pretty-printed form of a JSON text: `None` when the text does
/// not parse, and otherwise the one rendering of its value with stable
/// indentation. Two texts of one value share it, whatever their whitespace.
pub uninterp spec fn json_canon(s: Seq<char>) -> Option<Seq<char>>;

/// Relies on serde_json::from_str and serde_json::to_string_pretty: whether a
/// text parses as JSON, and the pretty form of the value it parses to, depend
/// on the text alone; the pretty form itself parses back to the same value, so
/// it canonicalizes to itself. The last point needs correctly-rounding number
/// parsing, so the crate is built with serde_json's float_roundtrip feature.
#[verifier::external_body]
fn json_pretty(s: &str) -> (r: Option<String>)
    ensures
        r is Some <==> json_canon(s@) is Some,
        r is Some ==> json_canon(s@) == Some(r->0@),
        r is Some ==> json_canon(r->0@) == json_canon(s@),
{
    match serde_json::from_str::<serde_json::Value>(s) {
        Ok(v) => serde_json::to_string_pretty(&v).ok(),
        Err(_) => None,
    }
}

/// Re-render a raw entry value as pretty-printed JSON with stable indentation.
/// Succeeds exactly on valid JSON, and the result parses back to an equal
/// value: formatting what this returned gives the same text again.
pub fn format_json(response: String) -> (r: Result<String, FormatError>)
    ensures
        r is Ok <==> json_canon(response@) is Some,
        r is Ok ==> json_canon(response@) == Some(r->Ok_0@),
        r is Ok ==> json_canon(r->Ok_0@) == json_canon(response@),
        r is Err ==> r->Err_0 == FormatError::InvalidJson,
{
    match json_pretty(response.as_str()) {
        Some(s) => Ok(s),
        None => Err(FormatError::InvalidJson),
    }
}

} // verus!
