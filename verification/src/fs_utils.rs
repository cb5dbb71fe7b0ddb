//! The filesystem scanner: orders the entries of one directory scan by
//! modification time and picks the newest artifact.
//!
//! The caller performs the scan itself and hands the observed entries in
//! as plain values; everything from there on is decided here.

use vstd::prelude::*;

use crate::text::path_join;
use vstd::multiset::Multiset;

verus! {

/// One directory entry as one scan observed it: its name when it could be
/// decoded to a displayable string, its last-modified time, and whether it
/// is a regular file.
pub struct File {
    /// The entry's name, `None` when it could not be decoded.
    pub name: Option<String>,
    /// Last-modified time, in milliseconds since the epoch.
    pub modified: u64,
    /// Whether the entry is a regular file (not a directory or other kind).
    pub is_regular: bool,
}

impl Clone for File {
    fn clone(&self) -> (r: Self)
        ensures
            r == *self,
    {
        let name = match &self.name {
            Some(n) => Some(n.clone()),
            None => None,
        };
        File { name, modified: self.modified, is_regular: self.is_regular }
    }
}

impl File {
    /// The entry's name, or the error that reports an undecodable one.
    pub fn get_file_name(&self) -> (r: Result<String, FSError>)
        ensures
            match self.name {
                Some(n) => r == Ok::<String, FSError>(n),
                None => r == Err::<String, FSError>(FSError::FailedToFetchFileName),
            },
    {
        match &self.name {
            Some(n) => Ok(n.clone()),
            None => Err(FSError::FailedToFetchFileName),
        }
    }
}

/// What can go wrong while working with the filesystem.
#[derive(Debug)]
pub enum FSError {
    /// The resolved package directory does not exist.
    NoPackageFound,
    /// A directory could not be read; holds the cause's description.
    IOError(String),
    /// An entry's name could not be decoded to a displayable string.
    FailedToFetchFileName,
    /// A name outside a directory scan could not be resolved.
    UnknownErrorOccured,
    /// The directory holds no regular files at all.
    EmptyDirectory,
}

impl FSError {
    /// The line shown to the user for this failure.
    pub fn message(&self) -> (r: String)
        ensures
            match *self {
                FSError::NoPackageFound => r@ == "No such package found"@,
                FSError::IOError(_) => r@ == "IO error occured"@,
                FSError::FailedToFetchFileName => r@ == "Failed to fetch file name"@,
                FSError::UnknownErrorOccured => r@ == "Unknown error occured"@,
                FSError::EmptyDirectory => r@ == "No files found in package directory"@,
            },
    {
        match self {
            FSError::NoPackageFound => String::from_str("No such package found"),
            FSError::IOError(_) => String::from_str("IO error occured"),
            FSError::FailedToFetchFileName => String::from_str("Failed to fetch file name"),
            FSError::UnknownErrorOccured => String::from_str("Unknown error occured"),
            FSError::EmptyDirectory => String::from_str("No files found in package directory"),
        }
    }
}

/// Accepts a package directory path once the caller has observed that it
/// exists as a directory, and reports the missing package otherwise.
pub fn parse_package_to_directory(name: &String, is_directory: bool) -> (r: Result<String, FSError>)
    ensures
        if is_directory {
            r == Ok::<String, FSError>(*name)
        } else {
            r == Err::<String, FSError>(FSError::NoPackageFound)
        },
{
    if is_directory {
        Ok(name.clone())
    } else {
        Err(FSError::NoPackageFound)
    }
}

/// The regular files among the entries of a scan, in scan order.
pub open spec fn regular_files(entries: Seq<File>) -> Seq<File> {
    entries.filter(|f: File| f.is_regular)
}

/// Holds when `s` is ordered newest first.
pub open spec fn sorted_desc(s: Seq<File>) -> bool {
    forall|i: int, j: int| 0 <= i <= j < s.len() ==> s[i].modified >= s[j].modified
}

/// Holds when `f` is an entry of `files` no other entry is newer than.
pub open spec fn is_newest_of(f: File, files: Seq<File>) -> bool {
    &&& files.contains(f)
    &&& forall|j: int| 0 <= j < files.len() ==> f.modified >= #[trigger] files[j].modified
}

/// Keeps the regular files of `entries`, in order.
fn filter_regular(entries: &Vec<File>) -> (r: Vec<File>)
    ensures
        r@ == regular_files(entries@),
{
    let n = entries.len();
    let mut acc: Vec<File> = Vec::new();
    let mut i: usize = 0;
    proof {
        reveal(Seq::filter);
        assert(entries@.take(0) =~= Seq::<File>::empty());
        assert(acc@ =~= regular_files(entries@.take(0)));
    }
    while i < n
        invariant
            i <= n,
            n == entries@.len(),
            acc@ == regular_files(entries@.take(i as int)),
        decreases n - i,
    {
        let ghost prev = acc@;
        if entries[i].is_regular {
            acc.push(entries[i].clone());
        }
        proof {
            reveal(Seq::filter);
            assert(entries@.take(i + 1 as int).drop_last() =~= entries@.take(i as int));
            assert(entries@.take(i + 1 as int).last() == entries@[i as int]);
            if entries@[i as int].is_regular {
                assert(acc@ =~= prev.push(entries@[i as int]));
            }
            assert(acc@ =~= regular_files(entries@.take(i + 1 as int)));
        }
        i += 1;
    }
    proof {
        assert(entries@.take(n as int) =~= entries@);
    }
    acc
}

/// Orders `input` newest first; entries with equal times keep no
/// particular order.
fn sort_by_modified_desc(input: Vec<File>) -> (r: Vec<File>)
    ensures
        sorted_desc(r@),
        r@.to_multiset() == input@.to_multiset(),
        r@.len() == input@.len(),
{
    broadcast use vstd::seq_lib::group_to_multiset_ensures;
    broadcast use vstd::multiset::group_multiset_axioms;

    let mut rest = input;
    let mut out: Vec<File> = Vec::new();
    proof {
        assert(out@.to_multiset().add(rest@.to_multiset()) =~= rest@.to_multiset());
    }
    while rest.len() > 0
        invariant
            out@.to_multiset().add(rest@.to_multiset()) == input@.to_multiset(),
            out@.len() + rest@.len() == input@.len(),
            sorted_desc(out@),
            forall|i: int, j: int|
                0 <= i < out@.len() && 0 <= j < rest@.len() ==> #[trigger] out@[i].modified
                    >= #[trigger] rest@[j].modified,
        decreases rest@.len(),
    {
        let mut idx: usize = 0;
        let mut k: usize = 1;
        while k < rest.len()
            invariant
                idx < k,
                k <= rest@.len(),
                forall|j: int| 0 <= j < k ==> rest@[idx as int].modified >= #[trigger] rest@[j].modified,
            decreases rest@.len() - k,
        {
            if rest[k].modified > rest[idx].modified {
                idx = k;
            }
            k += 1;
        }
        let ghost prev_rest = rest@;
        let ghost prev_out = out@;
        let x = rest.remove(idx);
        out.push(x);
        proof {
            assert(prev_rest.contains(prev_rest[idx as int]));
            assert(out@ == prev_out.push(x));
            assert(rest@ == prev_rest.remove(idx as int));
            vstd::seq_lib::to_multiset_build(prev_out, x);
            vstd::seq_lib::to_multiset_remove(prev_rest, idx as int);
            assert(out@.to_multiset() =~= prev_out.to_multiset().insert(x));
            assert(rest@.to_multiset() =~= prev_rest.to_multiset().remove(x));
            vstd::seq_lib::to_multiset_contains(prev_rest, x);
            assert(prev_rest.to_multiset().count(x) > 0);
            assert(out@.to_multiset().add(rest@.to_multiset()) =~= prev_out.to_multiset().add(
                prev_rest.to_multiset(),
            ));
            assert forall|j: int| 0 <= j < rest@.len() implies x.modified
                >= #[trigger] rest@[j].modified by {
                if j < idx {
                    assert(rest@[j] == prev_rest[j]);
                } else {
                    assert(rest@[j] == prev_rest[j + 1]);
                }
            }
            assert forall|i: int, j: int| 0 <= i <= j < out@.len() implies out@[i].modified
                >= out@[j].modified by {
                if j < out@.len() - 1 {
                    assert(out@[i] == prev_out[i] && out@[j] == prev_out[j]);
                } else if i < j {
                    assert(out@[i] == prev_out[i]);
                    assert(prev_out[i].modified >= prev_rest[idx as int].modified);
                }
            }
        }
    }
    proof {
        assert(rest@.to_multiset() =~= Multiset::<File>::empty());
        assert(out@.to_multiset().add(rest@.to_multiset()) =~= out@.to_multiset());
        assert(out@.to_multiset().len() == out@.len());
        assert(input@.to_multiset().len() == input@.len());
    }
    out
}

/// Lists the regular files of one directory scan, ordered newest first.
/// A scan the caller could not read at all comes in as the cause's
/// description and goes out as `FSError::IOError`.
pub fn get_files_from_directory(listing: Result<Vec<File>, String>) -> (r: Result<Vec<File>, FSError>)
    ensures
        match listing {
            Err(m) => r == Err::<Vec<File>, FSError>(FSError::IOError(m)),
            Ok(entries) => {
                &&& r is Ok
                &&& sorted_desc(r->Ok_0@)
                &&& r->Ok_0@.to_multiset() == regular_files(entries@).to_multiset()
                &&& r->Ok_0@.len() == regular_files(entries@).len()
            },
        },
{
    broadcast use vstd::seq_lib::group_to_multiset_ensures;

    match listing {
        Err(m) => Err(FSError::IOError(m)),
        Ok(entries) => {
            let filtered = filter_regular(&entries);
            proof {
                assert(filtered@.to_multiset().len() == filtered@.len());
            }
            let sorted = sort_by_modified_desc(filtered);
            proof {
                assert(sorted@.to_multiset().len() == sorted@.len());
            }
            Ok(sorted)
        },
    }
}

/// The full path of the newest regular file of one directory scan: the
/// scan's directory joined with that file's name. An empty scan and an
/// undecodable name are reported as distinct errors.
pub fn get_latest_file_from_directory(directory: &String, listing: Result<Vec<File>, String>) -> (r:
    Result<String, FSError>)
    ensures
        match listing {
            Err(m) => r == Err::<String, FSError>(FSError::IOError(m)),
            Ok(entries) => {
                let files = regular_files(entries@);
                &&& (files.len() == 0 <==> r == Err::<String, FSError>(FSError::EmptyDirectory))
                &&& (files.len() > 0 ==> match r {
                    Ok(p) => exists|f: File|
                        is_newest_of(f, files) && (f.name matches Some(nm) && p@ == directory@
                            + seq!['/'] + nm@),
                    Err(e) => {
                        &&& e == FSError::FailedToFetchFileName
                        &&& exists|f: File| is_newest_of(f, files) && f.name is None
                    },
                })
                &&& (files.len() > 0 && (forall|j: int|
                    0 <= j < files.len() ==> #[trigger] files[j].name is Some)) ==> r is Ok
            },
        },
{
    broadcast use vstd::seq_lib::group_to_multiset_ensures;

    let ghost glisting = listing;
    match get_files_from_directory(listing) {
        Err(e) => Err(e),
        Ok(files) => {
            let ghost filtered = regular_files(glisting->Ok_0@);
            if files.len() == 0 {
                Err(FSError::EmptyDirectory)
            } else {
                let ghost head = files@[0];
                proof {
                    assert(files@.contains(head));
                    assert(files@.to_multiset().count(head) > 0);
                    assert(filtered.contains(head));
                    assert forall|j: int| 0 <= j < filtered.len() implies head.modified
                        >= #[trigger] filtered[j].modified by {
                        assert(filtered.contains(filtered[j]));
                        assert(files@.to_multiset().count(filtered[j]) > 0);
                        assert(files@.contains(filtered[j]));
                        let k = choose|k: int| 0 <= k < files@.len() && files@[k] == filtered[j];
                        assert(files@[0].modified >= files@[k].modified);
                    }
                    assert(is_newest_of(head, filtered));
                }
                match &files[0].name {
                    None => {
                        proof {
                            let k = choose|k: int|
                                0 <= k < filtered.len() && filtered[k] == head;
                            assert(!(filtered[k].name is Some));
                        }
                        Err(FSError::FailedToFetchFileName)
                    },
                    Some(n) => {
                        let p = path_join(directory.as_str(), n.as_str());
                        proof {
                            assert(head.name matches Some(nm) && p@ == directory@ + seq!['/']
                                + nm@);
                        }
                        Ok(p)
                    },
                }
            }
        },
    }
}

/// When the regular files of one scan all carry distinct modification
/// times, any newest-first ordering of them — such as the one
/// `get_files_from_directory` yields — is strictly descending: no ties.
pub proof fn lemma_distinct_times_strictly_descending(entries: Seq<File>, r: Seq<File>)
    requires
        sorted_desc(r),
        r.to_multiset() == regular_files(entries).to_multiset(),
        forall|i: int, j: int|
            0 <= i < j < regular_files(entries).len() ==> #[trigger] regular_files(
                entries,
            )[i].modified != #[trigger] regular_files(entries)[j].modified,
    ensures
        forall|i: int, j: int|
            0 <= i < j < r.len() ==> #[trigger] r[i].modified > #[trigger] r[j].modified,
{
    broadcast use vstd::multiset::group_multiset_axioms;

    let files = regular_files(entries);
    assert forall|i: int, j: int|
        0 <= i < files.len() && 0 <= j < files.len() && i != j implies files[i] != files[j] by {
        if i < j {
            assert(files[i].modified != files[j].modified);
        } else {
            assert(files[j].modified != files[i].modified);
        }
    }
    files.lemma_multiset_has_no_duplicates();
    r.lemma_multiset_has_no_duplicates_conv();
    assert forall|i: int, j: int| 0 <= i < j < r.len() implies #[trigger] r[i].modified
        > #[trigger] r[j].modified by {
        assert(r[i].modified >= r[j].modified);
        if r[i].modified == r[j].modified {
            assert(r[i] != r[j]);
            assert(r.contains(r[i]));
            assert(r.contains(r[j]));
            vstd::seq_lib::to_multiset_contains(r, r[i]);
            vstd::seq_lib::to_multiset_contains(r, r[j]);
            vstd::seq_lib::to_multiset_contains(files, r[i]);
            vstd::seq_lib::to_multiset_contains(files, r[j]);
            assert(files.contains(r[i]));
            assert(files.contains(r[j]));
            let k1 = choose|k: int| 0 <= k < files.len() && files[k] == r[i];
            let k2 = choose|k: int| 0 <= k < files.len() && files[k] == r[j];
            assert(k1 != k2);
            if k1 < k2 {
                assert(files[k1].modified != files[k2].modified);
            } else {
                assert(files[k2].modified != files[k1].modified);
            }
            assert(false);
        }
    }
}

} // verus!
