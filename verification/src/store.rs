//! The float-free decisions of the local store: identifiers of new projects,
//! the JSON guard on stored documents, and the analysis cache rule.
use vstd::prelude::*;

use crate::digest::hex_lower;
use crate::error::StorageError;
use crate::stamp::now_stamp;
use crate::text::decimal;

verus! {

/// A mix project.
#[derive(Debug)]
pub struct Project {
    pub id: String,
    pub name: String,
    pub created_at: String,
    pub updated_at: String,
}

/// Hyphenated lowercase notation of 16 identifier bytes: 8-4-4-4-12 hex
/// digits.
pub open spec fn uuid_text(b: Seq<u8>) -> Seq<char> {
    hex_lower(b.subrange(0, 4)) + seq!['-'] + hex_lower(b.subrange(4, 6)) + seq!['-']
        + hex_lower(b.subrange(6, 8)) + seq!['-'] + hex_lower(b.subrange(8, 10)) + seq!['-']
        + hex_lower(b.subrange(10, 16))
}

/// `uuid::Uuid::new_v4`, as its 16 bytes: random, except for the version
/// nibble (4) and the variant bits (`10`) that the crate sets.
#[verifier::external_body]
fn random_uuid_bytes() -> (b: [u8; 16])
    ensures
        b@[6] / 16 == 4,
        b@[8] / 64 == 2,
{
    *uuid::Uuid::new_v4().as_bytes()
}

/// `uuid::Uuid`'s `Display` (via `to_string`) on the identifier with these
/// bytes: the hyphenated lowercase form.
#[verifier::external_body]
fn uuid_hyphenated(b: [u8; 16]) -> (s: String)
    ensures
        s@ == uuid_text(b@),
{
    uuid::Uuid::from_bytes(b).to_string()
}

/// Whether `id` is the text of a random (version 4) identifier.
pub open spec fn is_random_id(id: Seq<char>) -> bool {
    exists|b: Seq<u8>| b.len() == 16 && b[6] / 16 == 4 && b[8] / 64 == 2 && id == uuid_text(b)
}

/// A fresh random identifier in hyphenated form.
pub fn new_id() -> (id: String)
    ensures
        is_random_id(id@),
        id@.len() == 36,
{
    let b = random_uuid_bytes();
    let s = uuid_hyphenated(b);
    assert(s@ == uuid_text(b@));
    s
}

impl Project {
    /// A new project named `name`: a fresh random identifier, and creation
    /// and update stamps both set to the current time.
    pub fn create(name: &str) -> (p: Project)
        ensures
            p.name@ == name@,
            is_random_id(p.id@),
            p.created_at == p.updated_at,
            exists|secs: u64| p.created_at@ == decimal(secs as nat),
    {
        let id = new_id();
        let stamp = now_stamp();
        Project { id, name: String::from_str(name), created_at: stamp.clone(), updated_at: stamp }
    }
}

/// Whether a text parses as a JSON document.
pub uninterp spec fn parses_as_json(text: Seq<char>) -> bool;

/// `serde_json::from_str::<serde_json::Value>` succeeds on the text.
#[verifier::external_body]
fn json_parses(text: &str) -> (ok: bool)
    ensures
        ok == parses_as_json(text@),
{
    serde_json::from_str::<serde_json::Value>(text).is_ok()
}

/// Refuses, before it is stored, a document that is not JSON; the error
/// carries the text.
pub fn check_json(s: &str) -> (r: Result<(), StorageError>)
    ensures
        r is Ok <==> parses_as_json(s@),
        r matches Err(e) ==> e matches StorageError::InvalidJson(t) && t@ == s@,
{
    if !json_parses(s) {
        return Err(StorageError::InvalidJson(String::from_str(s)));
    }
    Ok(())
}

/// The analysis cache is keyed by the content hash of the file: a stored
/// analysis is current exactly when it was made from content with the
/// track's present hash. A track is (re-)analyzed only when it is not.
pub fn analysis_is_current(track_hash: &String, cached_hash: Option<&String>) -> (current: bool)
    ensures
        current <==> (cached_hash matches Some(h) && h@ == track_hash@),
{
    match cached_hash {
        Some(h) => *h == *track_hash,
        None => false,
    }
}

} // verus!
