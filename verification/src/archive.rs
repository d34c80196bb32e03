//! Release archives: gzip-compressed tar files, from which the update takes
//! the program.

use vstd::prelude::*;
use crate::paths::{file_name_of, is_program_entry};
use std::io::Read;

verus! {

/// Where reading an archive stopped before its end.
pub enum ReadFailure {
    /// The list of entries could not be started.
    Entries,
    /// The next entry's header could not be read (this includes skipping
    /// over the data before it).
    Entry,
    /// An entry's path could not be read.
    Path,
    /// The contents of the entry with this path could not be read.
    Contents(String),
}

pub enum ReadFailureView {
    Entries,
    Entry,
    Path,
    Contents(Seq<char>),
}

pub open spec fn failure_view(f: Option<ReadFailure>) -> Option<ReadFailureView> {
    match f {
        None => None,
        Some(ReadFailure::Entries) => Some(ReadFailureView::Entries),
        Some(ReadFailure::Entry) => Some(ReadFailureView::Entry),
        Some(ReadFailure::Path) => Some(ReadFailureView::Path),
        Some(ReadFailure::Contents(p)) => Some(ReadFailureView::Contents(p@)),
    }
}

/// Reading a gzip-compressed tar archive from its start: the entries read
/// whole, each as its path and its contents, in archive order, and where
/// reading stopped early, if it did.
pub uninterp spec fn archive_entries_of(gz: Seq<u8>) -> (
    Seq<(Seq<char>, Seq<u8>)>,
    Option<ReadFailureView>,
);

/// The paths and contents of a list of entries.
pub open spec fn entry_views(es: Seq<(String, Vec<u8>)>) -> Seq<(Seq<char>, Seq<u8>)> {
    es.map_values(|e: (String, Vec<u8>)| (e.0@, e.1@))
}

/// Whether an entry path names the program: its last component is
/// `bugsink`.
pub open spec fn names_program(path: Seq<char>) -> bool {
    file_name_of(path) == Some("bugsink"@)
}

/// Whether entry `i` is the first one that names the program.
pub open spec fn first_program(es: Seq<(Seq<char>, Seq<u8>)>, i: int) -> bool {
    &&& 0 <= i < es.len()
    &&& names_program(es[i].0)
    &&& forall|j: int| 0 <= j < i ==> !names_program(#[trigger] es[j].0)
}

/// Why no program could be taken from an archive.
#[derive(Debug, PartialEq, Eq, Structural)]
pub enum ArchiveError {
    /// The list of entries could not be started.
    EntriesUnreadable,
    /// An entry before the program could not be read.
    EntryUnreadable,
    /// The path of an entry before the program could not be read.
    PathUnreadable,
    /// The program's own contents could not be read.
    ProgramUnreadable,
    /// No entry of the archive is named `bugsink`.
    NoProgram,
}

/// The message of each error.
pub open spec fn archive_error_text(e: ArchiveError) -> Seq<char> {
    match e {
        ArchiveError::EntriesUnreadable => "Failed to read tar entries"@,
        ArchiveError::EntryUnreadable => "Failed to read tar entry"@,
        ArchiveError::PathUnreadable => "Failed to read entry path from tar archive"@,
        ArchiveError::ProgramUnreadable => "Failed to extract bugsink binary from archive"@,
        ArchiveError::NoProgram =>
            "Corrupt archive: no 'bugsink' binary found in the release tarball"@,
    }
}

/// The error when no program is among the entries read, by where reading
/// stopped: at the end, no program; on the contents of the program, the
/// program is unreadable; on the contents of another entry, the skip over
/// them fails as the next entry is read.
pub open spec fn stop_error(failure: Option<ReadFailureView>) -> ArchiveError {
    match failure {
        None => ArchiveError::NoProgram,
        Some(ReadFailureView::Entries) => ArchiveError::EntriesUnreadable,
        Some(ReadFailureView::Entry) => ArchiveError::EntryUnreadable,
        Some(ReadFailureView::Path) => ArchiveError::PathUnreadable,
        Some(ReadFailureView::Contents(p)) => if names_program(p) {
            ArchiveError::ProgramUnreadable
        } else {
            ArchiveError::EntryUnreadable
        },
    }
}

impl ArchiveError {
    /// The message shown to the user.
    pub fn message(&self) -> (r: String)
        ensures
            r@ == archive_error_text(*self),
    {
        match self {
            ArchiveError::EntriesUnreadable => String::from_str("Failed to read tar entries"),
            ArchiveError::EntryUnreadable => String::from_str("Failed to read tar entry"),
            ArchiveError::PathUnreadable => String::from_str(
                "Failed to read entry path from tar archive",
            ),
            ArchiveError::ProgramUnreadable => String::from_str(
                "Failed to extract bugsink binary from archive",
            ),
            ArchiveError::NoProgram => String::from_str(
                "Corrupt archive: no 'bugsink' binary found in the release tarball",
            ),
        }
    }
}

/// Reads `gz` with `tar::Archive::entries` over a `flate2::read::GzDecoder`:
/// each entry's path (as `to_string_lossy` gives it) and all its bytes,
/// until the end or the first read that fails. Claims only that the result
/// is a function of the bytes, named `archive_entries_of`.
#[verifier::external_body]
fn archive_entries(gz: &[u8]) -> (r: (Vec<(String, Vec<u8>)>, Option<ReadFailure>))
    ensures
        entry_views(r.0@) == archive_entries_of(gz@).0,
        failure_view(r.1) == archive_entries_of(gz@).1,
{
    let mut archive = tar::Archive::new(flate2::read::GzDecoder::new(gz));
    let mut out = Vec::new();
    let Ok(entries) = archive.entries() else { return (out, Some(ReadFailure::Entries)) };
    for entry in entries {
        let Ok(mut entry) = entry else { return (out, Some(ReadFailure::Entry)) };
        let Ok(path) = entry.path() else { return (out, Some(ReadFailure::Path)) };
        let path = path.to_string_lossy().into_owned();
        let mut bytes = Vec::new();
        if entry.read_to_end(&mut bytes).is_err() {
            return (out, Some(ReadFailure::Contents(path)));
        }
        out.push((path, bytes));
    }
    (out, None)
}

/// The contents of the first entry named `bugsink` among `entries`, if
/// there is one.
pub fn program_among(entries: Vec<(String, Vec<u8>)>) -> (r: Option<Vec<u8>>)
    ensures
        r is Some <==> exists|i: int| first_program(entry_views(entries@), i),
        r matches Some(b) ==> exists|i: int|
            first_program(entry_views(entries@), i) && b@ == #[trigger] entry_views(
                entries@,
            )[i].1,
{
    let ghost es = entry_views(entries@);
    let ghost given = entries@;
    let mut rest = entries;
    let mut i: usize = 0;
    while i < rest.len()
        invariant
            i <= rest@.len(),
            entry_views(rest@) == es,
            es == entry_views(given),
            given == entries@,
            es.len() == rest@.len(),
            forall|j: int| 0 <= j < i ==> !names_program(#[trigger] es[j].0),
        decreases rest@.len() - i,
    {
        assert(es[i as int] == (rest@[i as int].0@, rest@[i as int].1@));
        if is_program_entry(rest[i].0.as_str()) {
            let ghost at = i as int;
            assert(first_program(es, at));
            let (_, bytes) = rest.remove(i);
            assert(bytes@ == entry_views(given)[at].1);
            return Some(bytes);
        }
        i = i + 1;
    }
    proof {
        assert forall|k: int| !first_program(es, k) by {
            if 0 <= k < es.len() {
                assert(!names_program(es[k].0));
            }
        }
    }
    None
}

/// The program inside the release archive `gz`: the contents of its first
/// entry named `bugsink`, if reading reaches it; otherwise the error of
/// where reading stopped.
pub fn program_in_archive(gz: &[u8]) -> (r: Result<Vec<u8>, ArchiveError>)
    ensures
        ({
            let (es, failure) = archive_entries_of(gz@);
            &&& r is Ok <==> exists|i: int| first_program(es, i)
            &&& r matches Ok(b) ==> exists|i: int| first_program(es, i) && b@ == #[trigger] es[i].1
            &&& r is Err ==> r == Err::<Vec<u8>, ArchiveError>(stop_error(failure))
        }),
{
    let (entries, failure) = archive_entries(gz);
    match program_among(entries) {
        Some(b) => Ok(b),
        None => match failure {
            None => Err(ArchiveError::NoProgram),
            Some(ReadFailure::Entries) => Err(ArchiveError::EntriesUnreadable),
            Some(ReadFailure::Entry) => Err(ArchiveError::EntryUnreadable),
            Some(ReadFailure::Path) => Err(ArchiveError::PathUnreadable),
            Some(ReadFailure::Contents(p)) => if is_program_entry(p.as_str()) {
                Err(ArchiveError::ProgramUnreadable)
            } else {
                Err(ArchiveError::EntryUnreadable)
            },
        },
    }
}

} // verus!
