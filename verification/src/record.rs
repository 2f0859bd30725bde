//! The project record: one stored project's metadata, with its mathematical
//! model and the store's error kinds.

use vstd::prelude::*;

verus! {

/// The mathematical value of a project record: each field as a character
/// sequence, the declared environment as a sequence of key-value pairs.
pub ghost struct RecordModel {
    pub id: Seq<char>,
    pub name: Seq<char>,
    pub last_opened: Seq<char>,
    pub description: Seq<char>,
    pub path: Seq<char>,
    pub ide: Seq<char>,
    pub environment: Seq<(Seq<char>, Seq<char>)>,
}

/// One project's metadata, as decoded from a record file.
///
/// `id` is the stable identifier that lookups match on; `ide` is the
/// free-form editor name the resolver interprets; `environment` is the set
/// of extra variables to inject into the launched process, keys unique,
/// insertion order without meaning.  `last_opened` is informational only.
#[derive(Debug)]
pub struct ProjectRecord {
    pub id: String,
    pub name: String,
    pub last_opened: String,
    pub description: String,
    pub path: String,
    pub ide: String,
    pub environment: Vec<(String, String)>,
}

impl View for ProjectRecord {
    type V = RecordModel;

    open spec fn view(&self) -> RecordModel {
        RecordModel {
            id: self.id@,
            name: self.name@,
            last_opened: self.last_opened@,
            description: self.description@,
            path: self.path@,
            ide: self.ide@,
            environment: self.environment.deep_view(),
        }
    }
}

/// The declared environment's keys are pairwise distinct — the record
/// invariant every decoded record satisfies.
pub open spec fn env_keys_unique(env: Seq<(Seq<char>, Seq<char>)>) -> bool {
    forall|i: int, j: int| 0 <= i < j < env.len() ==> (#[trigger] env[i]).0 != (#[trigger] env[j]).0
}

/// What a store operation can fail with.
///
/// During bulk scans, per-entry failures are swallowed and the entry is
/// skipped; only a targeted operation surfaces an error to its caller.
#[derive(Debug)]
pub enum StoreError {
    /// A filesystem operation failed: open, read, write or directory listing.
    Io,
    /// A single record's text does not decode to a well-formed record.
    MalformedRecord,
    /// No record matched the requested identifier; carries that identifier.
    NotFound(String),
}

} // verus!
