//! Reading plugin manifests and repository listings out of JSON text.
use vstd::prelude::*;
use crate::error::{PluginError, PluginErrorKind};
use crate::plugin::{opt_view, Manifest, ManifestView};

verus! {

/// The string member `key` of the JSON object that `text` holds, as serde_json reads it.
pub uninterp spec fn json_member(text: Seq<char>, key: Seq<char>) -> Option<Seq<char>>;

/// The number of elements of the JSON array that `text` holds, as serde_json reads it.
pub uninterp spec fn json_array_len(text: Seq<char>) -> Option<nat>;

/// The string member `key` of element `i` of the JSON array that `text` holds.
pub uninterp spec fn json_item_member(text: Seq<char>, i: int, key: Seq<char>) -> Option<Seq<char>>;

/// Relies on serde_json::from_str into a `Value`, then `Value::get` and `Value::as_str`: the
/// string member `key` of the object that `text` holds, which depends on the text alone; none
/// when the text is not JSON, not an object, or the member is missing or not a string.
#[verifier::external_body]
fn json_string_member(text: &str, key: &str) -> (r: Option<String>)
    ensures
        opt_view(r) == json_member(text@, key@),
{
    let v: serde_json::Value = serde_json::from_str(text).ok()?;
    v.get(key)?.as_str().map(|s| s.to_string())
}

/// Relies on serde_json::from_str into a `Value`, then `Value::as_array`: the length of the
/// array that `text` holds, which depends on the text alone; none when it holds no array.
#[verifier::external_body]
fn json_array_length(text: &str) -> (r: Option<usize>)
    ensures
        match r {
            Some(n) => json_array_len(text@) == Some(n as nat),
            None => json_array_len(text@) is None,
        },
{
    let v: serde_json::Value = serde_json::from_str(text).ok()?;
    v.as_array().map(|a| a.len())
}

/// Relies on serde_json::from_str into a `Value`, then `Value::as_array`, `Value::get` and
/// `Value::as_str`: the string member `key` of element `i` of the array that `text` holds.
#[verifier::external_body]
fn json_item_string_member(text: &str, i: usize, key: &str) -> (r: Option<String>)
    ensures
        opt_view(r) == json_item_member(text@, i as int, key@),
{
    let v: serde_json::Value = serde_json::from_str(text).ok()?;
    v.as_array()?.get(i)?.get(key)?.as_str().map(|s| s.to_string())
}

/// The manifest that the text of an `info.json` holds: its string members `name` and `id`
/// are required, `version` and `remote_url` are kept when they are strings.
pub open spec fn manifest_of_text(text: Seq<char>) -> Option<ManifestView> {
    match (json_member(text, "name"@), json_member(text, "id"@)) {
        (Some(name), Some(id)) => Some(
            ManifestView {
                name,
                id,
                version: json_member(text, "version"@),
                remote_url: json_member(text, "remote_url"@),
            },
        ),
        _ => None,
    }
}

/// Builds a manifest from the members read out of `info.json`: `name` and `id` are required.
pub fn manifest_from_fields(
    name: Option<String>,
    id: Option<String>,
    version: Option<String>,
    remote_url: Option<String>,
) -> (r: Result<Manifest, PluginError>)
    ensures
        r.is_ok() == (name.is_some() && id.is_some()),
        r.is_ok() ==> r.unwrap()@.name == name.unwrap()@ && r.unwrap()@.id == id.unwrap()@
            && r.unwrap()@.version == opt_view(version) && r.unwrap()@.remote_url == opt_view(
            remote_url,
        ),
        r.is_err() ==> r->Err_0.kind == PluginErrorKind::Manifest,
{
    match (name, id) {
        (Some(name), Some(id)) => Ok(Manifest { name, id, version, remote_url }),
        (None, _) => Err(PluginError::with_text(PluginErrorKind::Manifest, "missing name")),
        (_, None) => Err(PluginError::with_text(PluginErrorKind::Manifest, "missing id")),
    }
}

/// Reads a plugin manifest out of the text of `info.json`.
pub fn parse_manifest(text: &str) -> (r: Result<Manifest, PluginError>)
    ensures
        r.is_ok() == manifest_of_text(text@).is_some(),
        r.is_ok() ==> manifest_of_text(text@) == Some(r.unwrap()@),
        r.is_err() ==> r->Err_0.kind == PluginErrorKind::Manifest,
{
    manifest_from_fields(
        json_string_member(text, "name"),
        json_string_member(text, "id"),
        json_string_member(text, "version"),
        json_string_member(text, "remote_url"),
    )
}

/// One entry of a repository folder listing: its name and its type (`file`, `dir`, ...).
#[derive(Debug)]
pub struct ListingEntry {
    pub name: String,
    pub kind: String,
}

pub open spec fn listing_view(v: Seq<ListingEntry>) -> Seq<(Seq<char>, Seq<char>)> {
    v.map_values(|e: ListingEntry| (e.name@, e.kind@))
}

/// The `(name, type)` pairs of the first `n` elements of the array that `text` holds; an
/// element without both string members is left out.
pub open spec fn listing_prefix(text: Seq<char>, n: nat) -> Seq<(Seq<char>, Seq<char>)>
    decreases n,
{
    if n == 0 {
        Seq::empty()
    } else {
        let prev = listing_prefix(text, (n - 1) as nat);
        match (json_item_member(text, n - 1, "name"@), json_item_member(text, n - 1, "type"@)) {
            (Some(name), Some(kind)) => prev.push((name, kind)),
            _ => prev,
        }
    }
}

/// The listing that a text holds: the entries of its array, when it holds an array.
pub open spec fn listing_of_text(text: Seq<char>) -> Option<Seq<(Seq<char>, Seq<char>)>> {
    match json_array_len(text) {
        Some(n) => Some(listing_prefix(text, n)),
        None => None,
    }
}

/// Reads a folder listing: a JSON array of objects with string members `name` and `type`.
/// Elements without both members are left out.
pub fn parse_listing(text: &str) -> (r: Result<Vec<ListingEntry>, PluginError>)
    ensures
        r.is_ok() == listing_of_text(text@).is_some(),
        r.is_ok() ==> listing_of_text(text@) == Some(listing_view(r.unwrap()@)),
        r.is_err() ==> r->Err_0.kind == PluginErrorKind::Network,
{
    let n = match json_array_length(text) {
        Some(n) => n,
        None => {
            return Err(PluginError::with_text(PluginErrorKind::Network, "listing is not an array"));
        },
    };
    let mut entries: Vec<ListingEntry> = Vec::new();
    let mut i: usize = 0;
    while i < n
        invariant
            i <= n,
            listing_view(entries@) == listing_prefix(text@, i as nat),
        decreases n - i,
    {
        let ghost prev = entries@;
        match (json_item_string_member(text, i, "name"), json_item_string_member(text, i, "type")) {
            (Some(name), Some(kind)) => {
                entries.push(ListingEntry { name, kind });
                proof {
                    assert(listing_view(entries@) =~= listing_view(prev).push(
                        (entries@.last().name@, entries@.last().kind@),
                    ));
                }
            },
            _ => {},
        }
        i = i + 1;
    }
    Ok(entries)
}

} // verus!
