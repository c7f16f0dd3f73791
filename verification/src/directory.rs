use vstd::prelude::*;

use crate::messages::prefixed_message;

verus! {

/// One child of a listed directory, as reported by a single
/// point-in-time read of that directory.
pub struct DirEntry {
    /// The child's base name.
    pub name: String,
    /// The child's full path, as the operating system reports it.
    pub path: String,
    /// Whether the operating system classifies the child as a directory.
    pub is_dir: bool,
}

/// What one step of the operating system's directory enumeration
/// produced: a child together with its metadata, or the error text of the
/// step that failed (advancing the enumeration, or reading the child's
/// metadata).
pub enum RawEntry {
    Found { name: String, path: String, is_dir: bool },
    EntryError { error: String },
    MetadataError { error: String },
}

/// True of an enumeration step that yielded a child.
pub open spec fn is_found(e: RawEntry) -> bool {
    e matches RawEntry::Found { .. }
}

/// True when every enumeration step yielded a child.
pub open spec fn all_found(s: Seq<RawEntry>) -> bool {
    forall|i: int| 0 <= i < s.len() ==> is_found(s[i])
}

/// The message reported when the directory itself could not be read.
pub open spec fn dir_error_message(detail: Seq<char>) -> Seq<char> {
    "Failed to read directory: "@ + detail
}

/// The message reported for a failed enumeration step.
pub open spec fn failure_message(e: RawEntry) -> Seq<char> {
    match e {
        RawEntry::Found { .. } => Seq::empty(),
        RawEntry::EntryError { error } => "Failed to read entry: "@ + error@,
        RawEntry::MetadataError { error } => "Failed to read metadata: "@ + error@,
    }
}

/// The entry carries exactly the child that the enumeration step yielded.
pub open spec fn found_matches(raw: RawEntry, e: DirEntry) -> bool {
    match raw {
        RawEntry::Found { name, path, is_dir } => e.name@ == name@ && e.path@ == path@
            && e.is_dir == is_dir,
        _ => false,
    }
}

/// The listing holds exactly one entry per enumeration step, in order.
pub open spec fn entries_match(raw: Seq<RawEntry>, out: Seq<DirEntry>) -> bool {
    out.len() == raw.len() && (forall|i: int|
        0 <= i < raw.len() ==> found_matches(raw[i], out[i]))
}

/// Step `i` is the earliest one that failed.
pub open spec fn is_first_failure(s: Seq<RawEntry>, i: int) -> bool {
    0 <= i < s.len() && !is_found(s[i]) && (forall|j: int| 0 <= j < i ==> is_found(s[j]))
}

/// The message is the one belonging to the earliest failed step.
pub open spec fn reports_first_failure(s: Seq<RawEntry>, m: Seq<char>) -> bool {
    exists|i: int| is_first_failure(s, i) && m == failure_message(s[i])
}

/// Turns the raw outcome of one directory read into the facade's
/// response. A listing succeeds only when opening the directory and every
/// enumeration step succeeded, and then holds exactly one entry per
/// child; any failure discards all partial results and reports the
/// earliest failing step with a non-empty, descriptive message.
pub fn read_directory(listing: Result<Vec<RawEntry>, String>) -> (r: Result<
    Vec<DirEntry>,
    String,
>)
    ensures
        (match listing {
            Err(detail) => r matches Err(m) && m@ == dir_error_message(detail@),
            Ok(raw) => match r {
                Ok(out) => all_found(raw@) && entries_match(raw@, out@),
                Err(m) => !all_found(raw@) && reports_first_failure(raw@, m@),
            },
        }),
        r matches Err(m) ==> m@.len() > 0,
{
    match listing {
        Err(detail) => {
            proof {
                reveal_strlit("Failed to read directory: ");
            }
            Err(prefixed_message("Failed to read directory: ", detail.as_str()))
        },
        Ok(raw) => {
            let mut out: Vec<DirEntry> = Vec::new();
            let mut i: usize = 0;
            while i < raw.len()
                invariant
                    listing == Result::<Vec<RawEntry>, String>::Ok(raw),
                    i <= raw.len(),
                    out@.len() == i as int,
                    forall|j: int| 0 <= j < i ==> is_found(raw@[j]),
                    forall|j: int| 0 <= j < i ==> found_matches(raw@[j], out@[j]),
                decreases raw.len() - i,
            {
                match &raw[i] {
                    RawEntry::Found { name, path, is_dir } => {
                        out.push(
                            DirEntry { name: name.clone(), path: path.clone(), is_dir: *is_dir },
                        );
                    },
                    RawEntry::EntryError { error } => {
                        let m = prefixed_message("Failed to read entry: ", error.as_str());
                        proof {
                            reveal_strlit("Failed to read entry: ");
                            assert(is_first_failure(raw@, i as int));
                            assert(m@ == failure_message(raw@[i as int]));
                        }
                        return Err(m);
                    },
                    RawEntry::MetadataError { error } => {
                        let m = prefixed_message("Failed to read metadata: ", error.as_str());
                        proof {
                            reveal_strlit("Failed to read metadata: ");
                            assert(is_first_failure(raw@, i as int));
                            assert(m@ == failure_message(raw@[i as int]));
                        }
                        return Err(m);
                    },
                }
                i += 1;
            }
            Ok(out)
        },
    }
}

} // verus!
