//! What the library reads from Flathub's appstream reply.
use vstd::prelude::*;
use crate::json::{json_document_string_members, json_string_member, parse_json_document};

verus! {

/// The member `key` of `members`, if there is one.
pub open spec fn member(members: Map<Seq<char>, Seq<char>>, key: Seq<char>) -> Option<Seq<char>> {
    if members.dom().contains(key) {
        Some(members[key])
    } else {
        None
    }
}

/// The appstream fields of a Flathub application that replace those of a
/// ref file: its summary, its icon URL and its display name.
#[derive(Debug)]
pub struct FlathubMetadata {
    pub summary: Option<String>,
    pub icon: Option<String>,
    pub name: Option<String>,
}

/// What came back from asking Flathub for an application's appstream data.
#[derive(Debug)]
pub enum FlathubReply {
    /// The request was answered and the body was read.
    Metadata(FlathubMetadata),
    /// The request failed; the HTTP status code that came with the failure.
    Failed(u16),
}

impl FlathubMetadata {
    /// Reads `summary`, `icon` and `name` from a JSON appstream document.
    /// A member that is missing or not a JSON string reads as `None`;
    /// `None` overall when the bytes are not a JSON document.
    pub fn from_json(bytes: &[u8]) -> (r: Option<FlathubMetadata>)
        ensures
            r is Some <==> json_document_string_members(bytes@) is Some,
            r matches Some(m) ==> {
                let members = json_document_string_members(bytes@).unwrap();
                &&& m.summary.deep_view() == member(members, "summary"@)
                &&& m.icon.deep_view() == member(members, "icon"@)
                &&& m.name.deep_view() == member(members, "name"@)
                &&& match m.summary {
                    Some(t) => members.dom().contains("summary"@) && t@ == members["summary"@],
                    None => !members.dom().contains("summary"@),
                }
                &&& match m.icon {
                    Some(t) => members.dom().contains("icon"@) && t@ == members["icon"@],
                    None => !members.dom().contains("icon"@),
                }
                &&& match m.name {
                    Some(t) => members.dom().contains("name"@) && t@ == members["name"@],
                    None => !members.dom().contains("name"@),
                }
            },
    {
        match parse_json_document(bytes) {
            None => None,
            Some(v) => {
                let summary = json_string_member(&v, "summary");
                let icon = json_string_member(&v, "icon");
                let name = json_string_member(&v, "name");
                Some(FlathubMetadata { summary, icon, name })
            },
        }
    }
}

/// `member` is the lookup of a key: present exactly when the key is, and
/// then the value held under that very key.
pub proof fn law_member_is_lookup(members: Map<Seq<char>, Seq<char>>, key: Seq<char>)
    ensures
        member(members, key) is Some <==> members.dom().contains(key),
        member(members, key) matches Some(v) ==> v == members[key],
        forall|k2: Seq<char>, v2: Seq<char>|
            #![trigger members.insert(k2, v2)]
            k2 != key ==> member(members.insert(k2, v2), key) == member(members, key),
{
}

} // verus!
