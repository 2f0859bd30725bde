//! The record codec: decodes a record's structured-text (JSON) encoding.
//!
//! The decoding itself is done by `serde_json`; its result for a given text
//! is a fixed value, named by the uninterpreted function [`record_of`].  The
//! record is well-formed when the text is a JSON object whose `id`, `name`,
//! `lastOpened`, `description`, `path` and `ide` members are strings and
//! whose `environment` member is an object of string members; anything else
//! is malformed.

use vstd::prelude::*;

use crate::record::{env_keys_unique, ProjectRecord, RecordModel, StoreError};

verus! {

/// The record that decoding yields for a given text, or `None` when the
/// text is not a well-formed record.  A fixed function of the text alone:
/// the decoder resolves duplicate JSON keys (last one wins) and orders the
/// environment pairs by key, so two decodings of equal texts agree.
pub uninterp spec fn record_of(s: Seq<char>) -> Option<RecordModel>;

/// Relies on `serde_json::from_str` and the `serde_json::Value` accessors
/// `get`, `as_str` and `as_object`: parses the text as JSON and moves the
/// record's members, each required to be a string (the environment an
/// object of strings), into the record.  The environment pairs come out in
/// `serde_json`'s map order — sorted by key, each key once.
#[verifier::external_body]
fn decode_json(s: &str) -> (r: Option<ProjectRecord>)
    ensures
        r matches Some(rec) ==> record_of(s@) == Some(rec@),
        r matches Some(rec) ==> env_keys_unique(rec@.environment),
        r is None ==> record_of(s@) is None,
{
    let v: serde_json::Value = serde_json::from_str(s).ok()?;
    let mut environment: Vec<(String, String)> = Vec::new();
    for (k, w) in v.get("environment")?.as_object()? {
        environment.push((k.clone(), w.as_str()?.to_string()));
    }
    Some(ProjectRecord {
        id: v.get("id")?.as_str()?.to_string(),
        name: v.get("name")?.as_str()?.to_string(),
        last_opened: v.get("lastOpened")?.as_str()?.to_string(),
        description: v.get("description")?.as_str()?.to_string(),
        path: v.get("path")?.as_str()?.to_string(),
        ide: v.get("ide")?.as_str()?.to_string(),
        environment,
    })
}

/// Decodes one record's text; fails with `MalformedRecord` exactly when the
/// text does not decode to a record.
pub fn decode(s: &str) -> (r: Result<ProjectRecord, StoreError>)
    ensures
        r matches Ok(rec) ==> record_of(s@) == Some(rec@) && env_keys_unique(rec@.environment),
        r matches Err(e) ==> record_of(s@) is None && e is MalformedRecord,
{
    match decode_json(s) {
        Some(rec) => Ok(rec),
        None => Err(StoreError::MalformedRecord),
    }
}

} // verus!
