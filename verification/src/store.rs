//! The record store: a directory of record files, scanned for listing,
//! lookup by identifier and create-or-update rewriting.
//!
//! Scans tolerate bad entries: a file that cannot be read or whose text
//! does not decode is silently skipped, and only a missing final match is
//! an error.  The scan's outcome is stated over the sequence of per-entry
//! read results — `None` for an unreadable entry, `Some` of the raw text
//! otherwise — so everything past the filesystem reads is verified.

use vstd::prelude::*;
use vstd::string::{StrSliceExecFns, StringExecFns};

use crate::codec::{decode, record_of};
use crate::platform::{path_separator, separator_str, Platform};
use crate::record::{env_keys_unique, ProjectRecord, RecordModel, StoreError};
use crate::text::{is_trimmed, trim, trim_spec};

verus! {

#[verifier::external_type_specification]
#[verifier::external_body]
pub struct ExIoError(std::io::Error);

/// Relies on `fs_err::read_dir`: yields the path of every entry of the
/// directory, in filesystem enumeration order; entries that error are
/// skipped, a listing failure gives `None`.
#[verifier::external_body]
fn read_dir_paths(dir: &str) -> (r: Option<Vec<String>>)
{
    let entries = fs_err::read_dir(dir).ok()?;
    Some(
        entries
            .filter_map(|e| e.ok())
            .map(|e| e.path().to_string_lossy().into_owned())
            .collect(),
    )
}

/// Relies on `fs_err::read_to_string`: reads the file fully; any failure
/// gives `None`.
#[verifier::external_body]
fn read_file(path: &str) -> (r: Option<String>)
{
    fs_err::read_to_string(path).ok()
}

/// Relies on `fs_err::write`: opens the file, creating it if absent and
/// truncating it if present, and writes the content as the entire body.
#[verifier::external_body]
fn write_file(path: &str, content: &str) -> (r: Result<(), std::io::Error>)
{
    fs_err::write(path, content)
}

/// The record one raw directory entry stands for: its text trimmed and
/// decoded, `None` for an unreadable or malformed entry.
pub open spec fn entry_model(c: Option<Seq<char>>) -> Option<RecordModel> {
    match c {
        Some(raw) => record_of(trim_spec(raw)),
        None => None,
    }
}

/// Whether an entry decodes to a record carrying the requested identifier.
pub open spec fn matches_entry(c: Option<Seq<char>>, id: Seq<char>) -> bool {
    entry_model(c) matches Some(m) && m.id == id
}

/// The index of the first entry that decodes to the requested identifier —
/// the store's tie-break policy under duplicate identifiers.
pub open spec fn locate_index(cs: Seq<Option<Seq<char>>>, id: Seq<char>) -> Option<int>
    decreases cs.len(),
{
    if cs.len() == 0 {
        None
    } else if matches_entry(cs[0], id) {
        Some(0)
    } else {
        match locate_index(cs.subrange(1, cs.len() as int), id) {
            Some(j) => Some(j + 1),
            None => None,
        }
    }
}

/// The record a scan of the entries yields for the identifier, if any.
pub open spec fn found_record(cs: Seq<Option<Seq<char>>>, id: Seq<char>) -> Option<RecordModel> {
    match locate_index(cs, id) {
        Some(i) => entry_model(cs[i]),
        None => None,
    }
}

/// What `locate_index` finds is a match, and the earliest one; when it
/// finds nothing, no entry matches.
pub proof fn lemma_locate_index(cs: Seq<Option<Seq<char>>>, id: Seq<char>)
    ensures
        match locate_index(cs, id) {
            Some(i) => 0 <= i < cs.len() && matches_entry(cs[i], id) && (forall|k: int|
                0 <= k < i ==> !matches_entry(cs[k], id)),
            None => forall|k: int| 0 <= k < cs.len() ==> !matches_entry(cs[k], id),
        },
    decreases cs.len(),
{
    if cs.len() == 0 {
    } else if matches_entry(cs[0], id) {
    } else {
        let tail = cs.subrange(1, cs.len() as int);
        lemma_locate_index(tail, id);
        match locate_index(tail, id) {
            Some(j) => {
                assert(cs[j + 1] == tail[j]);
                assert forall|k: int| 0 <= k < j + 1 implies !matches_entry(cs[k], id) by {
                    if k > 0 {
                        assert(cs[k] == tail[k - 1]);
                    }
                }
            },
            None => {
                assert forall|k: int| 0 <= k < cs.len() implies !matches_entry(cs[k], id) by {
                    if k > 0 {
                        assert(cs[k] == tail[k - 1]);
                    }
                }
            },
        }
    }
}

/// A match at `i`, with no match before it, is where `locate_index` points.
pub proof fn lemma_locate_index_at(cs: Seq<Option<Seq<char>>>, id: Seq<char>, i: int)
    requires
        0 <= i < cs.len(),
        matches_entry(cs[i], id),
        forall|k: int| 0 <= k < i ==> !matches_entry(cs[k], id),
    ensures
        locate_index(cs, id) == Some(i),
    decreases i,
{
    if i == 0 {
    } else {
        let tail = cs.subrange(1, cs.len() as int);
        assert(tail[i - 1] == cs[i]);
        assert forall|k: int| 0 <= k < i - 1 implies !matches_entry(tail[k], id) by {
            assert(tail[k] == cs[k + 1]);
        }
        lemma_locate_index_at(tail, id, i - 1);
    }
}

/// Law: a lookup over entries none of which decodes to a record — an empty
/// directory, or one holding only unreadable and malformed files — finds
/// nothing, whatever identifier is asked for; skipping bad entries never
/// turns into a decode error.
pub proof fn lemma_scan_all_malformed_finds_nothing(cs: Seq<Option<Seq<char>>>, id: Seq<char>)
    requires
        forall|k: int| 0 <= k < cs.len() ==> entry_model(cs[k]) is None,
    ensures
        locate_index(cs, id) is None,
        found_record(cs, id) is None,
{
    lemma_locate_index(cs, id);
    match locate_index(cs, id) {
        Some(i) => {
            assert(entry_model(cs[i]) is None);
        },
        None => {},
    }
}

/// Law: a lookup returns a well-formed record whole.  If some entry's text
/// decodes to a record carrying `id` and no earlier entry matches `id` —
/// as after a create-or-update under the store's uniqueness convention —
/// the lookup yields exactly that entry's record, every field included.
pub proof fn lemma_written_record_is_found(cs: Seq<Option<Seq<char>>>, id: Seq<char>, i: int)
    requires
        0 <= i < cs.len(),
        matches_entry(cs[i], id),
        forall|k: int| 0 <= k < i ==> !matches_entry(cs[k], id),
    ensures
        found_record(cs, id) == entry_model(cs[i]),
{
    lemma_locate_index_at(cs, id, i);
}

/// Law: whatever a scan finds carries the identifier it was asked for.
pub proof fn lemma_found_record_id(cs: Seq<Option<Seq<char>>>, id: Seq<char>)
    ensures
        found_record(cs, id) matches Some(m) ==> m.id == id,
{
    lemma_locate_index(cs, id);
}

/// Scans the entries for the first record carrying `id`; returns its index
/// and the decoded record.
pub fn locate_in_entries(
    contents: &Vec<Option<String>>,
    id: &str,
) -> (r: Option<(usize, ProjectRecord)>)
    ensures
        r matches Some(hit) ==> {
            &&& locate_index(contents.deep_view(), id@) == Some(hit.0 as int)
            &&& found_record(contents.deep_view(), id@) == Some(hit.1@)
            &&& hit.1@.id == id@
            &&& env_keys_unique(hit.1@.environment)
        },
        r is None ==> found_record(contents.deep_view(), id@) is None && locate_index(
            contents.deep_view(),
            id@,
        ) is None,
{
    let ghost cs = contents.deep_view();
    let mut i: usize = 0;
    while i < contents.len()
        invariant
            cs == contents.deep_view(),
            cs.len() == contents@.len(),
            i <= contents@.len(),
            forall|k: int| 0 <= k < i ==> !matches_entry(cs[k], id@),
        decreases contents@.len() - i,
    {
        proof {
            assert(cs[i as int] == contents@[i as int].deep_view());
        }
        match &contents[i] {
            Some(raw) => {
                let trimmed = trim(raw.as_str());
                match decode(trimmed.as_str()) {
                    Ok(rec) => {
                        if crate::text::str_eq(rec.id.as_str(), id) {
                            proof {
                                assert(matches_entry(cs[i as int], id@));
                                lemma_locate_index_at(cs, id@, i as int);
                            }
                            return Some((i, rec));
                        }
                        proof {
                            assert(!matches_entry(cs[i as int], id@));
                        }
                    },
                    Err(_) => {
                        proof {
                            assert(!matches_entry(cs[i as int], id@));
                        }
                    },
                }
            },
            None => {
                proof {
                    assert(!matches_entry(cs[i as int], id@));
                }
            },
        }
        i = i + 1;
    }
    proof {
        lemma_locate_index(cs, id@);
    }
    None
}

/// The trimmed text of every readable entry, in order; unreadable entries
/// are skipped.
pub open spec fn trimmed_of_readable(cs: Seq<Option<Seq<char>>>) -> Seq<Seq<char>>
    decreases cs.len(),
{
    if cs.len() == 0 {
        Seq::empty()
    } else {
        let rest = trimmed_of_readable(cs.subrange(0, cs.len() - 1));
        match cs[cs.len() - 1] {
            Some(raw) => rest.push(trim_spec(raw)),
            None => rest,
        }
    }
}

/// Keeps the readable entries and trims each: exactly
/// [`trimmed_of_readable`] of the read results.
pub fn readable_trimmed(contents: &Vec<Option<String>>) -> (r: Vec<String>)
    ensures
        r.deep_view() == trimmed_of_readable(contents.deep_view()),
        forall|k: int| 0 <= k < r@.len() ==> is_trimmed(#[trigger] r@[k]@),
{
    let ghost cs = contents.deep_view();
    let mut out: Vec<String> = Vec::new();
    let mut i: usize = 0;
    while i < contents.len()
        invariant
            cs == contents.deep_view(),
            cs.len() == contents@.len(),
            i <= contents@.len(),
            out.deep_view() == trimmed_of_readable(cs.take(i as int)),
            forall|k: int| 0 <= k < out@.len() ==> is_trimmed(#[trigger] out@[k]@),
        decreases contents@.len() - i,
    {
        proof {
            assert(cs[i as int] == contents@[i as int].deep_view());
            assert(cs.take(i + 1).subrange(0, i as int) =~= cs.take(i as int));
            assert(cs.take(i + 1)[i as int] == cs[i as int]);
        }
        match &contents[i] {
            Some(raw) => {
                let trimmed = trim(raw.as_str());
                out.push(trimmed);
                proof {
                    assert(out.deep_view() =~= trimmed_of_readable(cs.take(i + 1)));
                }
            },
            None => {
                proof {
                    assert(out.deep_view() =~= trimmed_of_readable(cs.take(i + 1)));
                }
            },
        }
        i = i + 1;
    }
    proof {
        assert(cs.take(contents@.len() as int) =~= cs);
    }
    out
}

/// Reads every listed path, recording per-entry failures as `None`.
fn read_all(paths: &Vec<String>) -> (r: Vec<Option<String>>)
    ensures
        r@.len() == paths@.len(),
{
    let mut contents: Vec<Option<String>> = Vec::new();
    let mut i: usize = 0;
    while i < paths.len()
        invariant
            i <= paths@.len(),
            contents@.len() == i,
        decreases paths@.len() - i,
    {
        contents.push(read_file(paths[i].as_str()));
        i = i + 1;
    }
    contents
}

/// Reads a file fully and returns its content with leading and trailing
/// whitespace stripped; fails with `Io` on any read failure.
pub fn file_content(file_name: &str) -> (r: Result<String, StoreError>)
    ensures
        r matches Ok(t) ==> is_trimmed(t@),
        r matches Err(e) ==> e is Io,
{
    match read_file(file_name) {
        Some(s) => Ok(trim(s.as_str())),
        None => Err(StoreError::Io),
    }
}

/// Lists the raw trimmed text of every readable entry of `dir`, skipping
/// entries that fail to open or read; one bad file never invalidates the
/// listing.  Fails with `Io` only when the directory itself cannot be
/// enumerated.
pub fn list_records(dir: &str) -> (r: Result<Vec<String>, StoreError>)
    ensures
        r matches Ok(v) ==> forall|k: int| 0 <= k < v@.len() ==> is_trimmed(#[trigger] v@[k]@),
        r matches Err(e) ==> e is Io,
{
    let paths = match read_dir_paths(dir) {
        Some(p) => p,
        None => {
            return Err(StoreError::Io);
        },
    };
    let contents = read_all(&paths);
    Ok(readable_trimmed(&contents))
}

/// Finds the record whose `id` equals the requested identifier: the first
/// match in enumeration order wins, entries that fail to read or decode
/// are dropped from consideration.  Fails with `NotFound` carrying the
/// identifier when the whole directory holds no match, and with `Io` only
/// when the directory cannot be enumerated — never with a decode error.
pub fn find_record(dir: &str, id: &str) -> (r: Result<ProjectRecord, StoreError>)
    ensures
        r matches Ok(rec) ==> rec@.id == id@ && env_keys_unique(rec@.environment),
        r matches Err(e) ==> (e is Io || (e matches StoreError::NotFound(missing) && missing@
            == id@)),
{
    let paths = match read_dir_paths(dir) {
        Some(p) => p,
        None => {
            return Err(StoreError::Io);
        },
    };
    let contents = read_all(&paths);
    match locate_in_entries(&contents, id) {
        Some((_, rec)) => Ok(rec),
        None => Err(StoreError::NotFound(String::from_str(id))),
    }
}

/// Same scan as [`find_record`], returning the matched entry's file path
/// instead of the record; `Ok(None)` when nothing matches.
pub fn locate_record_file(dir: &str, id: &str) -> (r: Result<Option<String>, StoreError>)
    ensures
        r matches Err(e) ==> e is Io,
{
    let paths = match read_dir_paths(dir) {
        Some(p) => p,
        None => {
            return Err(StoreError::Io);
        },
    };
    let contents = read_all(&paths);
    match locate_in_entries(&contents, id) {
        Some((i, _)) => {
            proof {
                lemma_locate_index(contents.deep_view(), id@);
                assert(contents.deep_view().len() == contents@.len());
            }
            Ok(Some(paths[i].clone()))
        },
        None => Ok(None),
    }
}

/// `name` appended to the directory path `dir`, with the platform's
/// separator between them unless `dir` is empty or already ends with it.
pub open spec fn join_spec(dir: Seq<char>, name: Seq<char>, p: Platform) -> Seq<char> {
    if dir.len() == 0 {
        name
    } else if dir[dir.len() - 1] == path_separator(p) {
        dir + name
    } else {
        dir + seq![path_separator(p)] + name
    }
}

fn separator_char(p: Platform) -> (c: char)
    ensures
        c == path_separator(p),
{
    match p {
        Platform::Windows => '\\',
        Platform::Other => '/',
    }
}

/// Appends a file name to a directory path.
pub fn join_path(dir: &str, name: &str, p: Platform) -> (r: String)
    ensures
        r@ == join_spec(dir@, name@, p),
{
    let n = dir.unicode_len();
    if n == 0 {
        return String::from_str(name);
    }
    let mut out = String::from_str(dir);
    if dir.get_char(n - 1) != separator_char(p) {
        out.append(separator_str(p));
        proof {
            assert(out@ =~= dir@ + seq![path_separator(p)]);
        }
    }
    out.append(name);
    out
}

/// The file a rewrite goes to: the first entry that decodes to the
/// requested identifier, or — when no entry does — a new file named after
/// the identifier inside the directory.
pub open spec fn rewrite_target_spec(
    ps: Seq<Seq<char>>,
    cs: Seq<Option<Seq<char>>>,
    dir: Seq<char>,
    id: Seq<char>,
    p: Platform,
) -> Seq<char> {
    match locate_index(cs, id) {
        Some(i) => ps[i],
        None => join_spec(dir, id, p),
    }
}

/// Picks the file a rewrite writes, given the scanned entries.
pub fn rewrite_target(
    paths: &Vec<String>,
    contents: &Vec<Option<String>>,
    dir: &str,
    id: &str,
    p: Platform,
) -> (r: String)
    requires
        paths@.len() == contents@.len(),
    ensures
        r@ == rewrite_target_spec(paths.deep_view(), contents.deep_view(), dir@, id@, p),
{
    match locate_in_entries(contents, id) {
        Some((i, _)) => {
            proof {
                lemma_locate_index(contents.deep_view(), id@);
                assert(contents.deep_view().len() == contents@.len());
                assert(paths.deep_view().len() == paths@.len());
                assert(paths.deep_view()[i as int] == paths@[i as int]@);
            }
            paths[i].clone()
        },
        None => join_path(dir, id, p),
    }
}

/// Overwrites `path`'s entire content, creating the file if absent and
/// truncating it if present; fails with `Io` on any write failure.
pub fn rewrite_file_content(file_name: &str, new_content: &str) -> (r: Result<(), StoreError>)
    ensures
        r matches Err(e) ==> e is Io,
{
    match write_file(file_name, new_content) {
        Ok(_) => Ok(()),
        Err(_) => Err(StoreError::Io),
    }
}

/// Create-or-update: scans `dir` for a record whose decoded `id` equals the
/// requested identifier and overwrites that file's entire content with
/// `new_content`; when no entry matches, creates a new file named exactly
/// `id` inside `dir` with that content.  The body written is the caller's
/// raw text, not re-validated against the record schema.
pub fn rewrite(
    dir: &str,
    id: &str,
    new_content: &str,
    p: Platform,
) -> (r: Result<(), StoreError>)
    ensures
        r matches Err(e) ==> e is Io,
{
    let paths = match read_dir_paths(dir) {
        Some(ps) => ps,
        None => {
            return Err(StoreError::Io);
        },
    };
    let contents = read_all(&paths);
    let target = rewrite_target(&paths, &contents, dir, id, p);
    rewrite_file_content(target.as_str(), new_content)
}

} // verus!
