//! The manifests of the Epic Games launcher.

use crate::json::{json_text_member, text_member};
use crate::text::opt_view;
use vstd::prelude::*;

verus! {

/// The catalogue identifier and the installation directory that a manifest
/// names, from what the document holds under `CatalogItemId` and under
/// `InstallLocation`: both have to be there.
pub open spec fn manifest_entry(id: Option<Seq<char>>, location: Option<Seq<char>>) -> Option<
    (Seq<char>, Seq<char>),
> {
    match (id, location) {
        (Some(i), Some(l)) => Some((i, l)),
        _ => None,
    }
}

/// The catalogue identifier and the installation directory of a title, from
/// the two members of its manifest.
pub fn manifest_entry_from(
    id: Option<String>,
    location: Option<String>,
) -> (entry: Option<(String, String)>)
    ensures
        match manifest_entry(opt_view(id), opt_view(location)) {
            Some((i, l)) => entry matches Some(pair) && pair.0@ == i && pair.1@ == l,
            None => entry is None,
        },
{
    match (id, location) {
        (Some(i), Some(l)) => Some((i, l)),
        _ => None,
    }
}

/// The catalogue identifier and the installation directory that the text
/// of a manifest names. Text that is no JSON document names nothing.
pub fn parse_manifest(content: &str) -> (entry: Option<(String, String)>)
    ensures
        match manifest_entry(
            json_text_member(content@, "CatalogItemId"@),
            json_text_member(content@, "InstallLocation"@),
        ) {
            Some((i, l)) => entry matches Some(pair) && pair.0@ == i && pair.1@ == l,
            None => entry is None,
        },
{
    let id = text_member(content, "CatalogItemId");
    let location = text_member(content, "InstallLocation");
    manifest_entry_from(id, location)
}

} // verus!
