//! The scanner: collects the initial watch set from user-supplied root
//! paths, applying the ignore filter.
//!
//! The scanner is a worklist state machine. The caller looks paths up on the
//! filesystem and reports what it found as plain values; the scanner decides
//! what is collected and which directories remain to be read. Root paths that
//! do not exist are skipped; files are collected unless the filter rejects
//! them; directories are queued and their entries reported one by one, so a
//! whole tree is traversed without the scanner itself touching the
//! filesystem. Directories themselves are never collected, only files.

use vstd::prelude::*;
use crate::filter::IgnoreFilter;
use crate::filter::path_is_ignored;

verus! {

/// What a filesystem path turned out to be when looked up.
#[derive(Clone, Copy, PartialEq, Eq, Structural, Debug)]
pub enum PathKind {
    /// The path does not exist.
    Missing,
    /// The path is a file (anything that is not a directory).
    File,
    /// The path is a directory.
    Directory,
}

/// What became of one root path handed to the scanner.
#[derive(Clone, Copy, PartialEq, Eq, Structural, Debug)]
pub enum RootOutcome {
    /// The path does not exist; it was skipped with a warning.
    MissingSkipped,
    /// The path is a file and was collected.
    Included,
    /// The path is a file rejected by the ignore filter.
    Ignored,
    /// The path is a directory and was queued for reading.
    Queued,
}

/// Every collected path is accepted by the ignore filter.
pub open spec fn all_unignored(files: Seq<Seq<char>>) -> bool {
    forall|i: int| 0 <= i < files.len() ==> !path_is_ignored(#[trigger] files[i])
}

/// The scanner's state: directories waiting to be read, and the files
/// collected so far.
pub struct Scanner {
    pending: Vec<String>,
    files: Vec<String>,
}

impl Scanner {
    /// The directories queued for reading, most recently queued last.
    pub closed spec fn pending_dirs(&self) -> Seq<Seq<char>> {
        self.pending.deep_view()
    }

    /// The files collected so far, in the order they were reported.
    pub closed spec fn collected_files(&self) -> Seq<Seq<char>> {
        self.files.deep_view()
    }

    /// Invariant: nothing the filter rejects is ever collected.
    pub open spec fn wf(&self) -> bool {
        all_unignored(self.collected_files())
    }

    /// A scanner with nothing queued and nothing collected.
    pub fn new() -> (s: Self)
        ensures
            s.pending_dirs() == Seq::<Seq<char>>::empty(),
            s.collected_files() == Seq::<Seq<char>>::empty(),
            s.wf(),
    {
        let s = Scanner { pending: Vec::new(), files: Vec::new() };
        proof {
            assert(s.pending_dirs() =~= Seq::<Seq<char>>::empty());
            assert(s.collected_files() =~= Seq::<Seq<char>>::empty());
        }
        s
    }

    /// Report one user-supplied root path. A missing path is skipped, a file
    /// is collected unless the filter rejects it, a directory is queued.
    pub fn add_root(&mut self, filter: &IgnoreFilter, path: String, kind: PathKind) -> (r:
        RootOutcome)
        requires
            filter.wf(),
        ensures
            kind == PathKind::Missing ==> r == RootOutcome::MissingSkipped
                && final(self).pending_dirs() == old(self).pending_dirs()
                && final(self).collected_files() == old(self).collected_files(),
            kind == PathKind::Directory ==> r == RootOutcome::Queued
                && final(self).pending_dirs() == old(self).pending_dirs().push(path@)
                && final(self).collected_files() == old(self).collected_files(),
            kind == PathKind::File && !path_is_ignored(path@) ==> r == RootOutcome::Included
                && final(self).pending_dirs() == old(self).pending_dirs()
                && final(self).collected_files() == old(self).collected_files().push(path@),
            kind == PathKind::File && path_is_ignored(path@) ==> r == RootOutcome::Ignored
                && final(self).pending_dirs() == old(self).pending_dirs()
                && final(self).collected_files() == old(self).collected_files(),
            old(self).wf() ==> final(self).wf(),
    {
        match kind {
            PathKind::Missing => RootOutcome::MissingSkipped,
            PathKind::Directory => {
                self.pending.push(path);
                proof {
                    assert(self.pending_dirs() =~= old(self).pending_dirs().push(path@));
                }
                RootOutcome::Queued
            },
            PathKind::File => {
                if filter.should_ignore(path.as_str()) {
                    RootOutcome::Ignored
                } else {
                    self.files.push(path);
                    proof {
                        assert(self.collected_files() =~= old(self).collected_files().push(
                            path@,
                        ));
                    }
                    RootOutcome::Included
                }
            },
        }
    }

    /// Take the next directory waiting to be read, if any.
    pub fn next_dir(&mut self) -> (r: Option<String>)
        ensures
            final(self).collected_files() == old(self).collected_files(),
            old(self).pending_dirs().len() == 0 ==> r is None
                && final(self).pending_dirs() == old(self).pending_dirs(),
            old(self).pending_dirs().len() > 0 ==> (r matches Some(p)
                && p@ == old(self).pending_dirs().last()
                && final(self).pending_dirs() == old(self).pending_dirs().drop_last()),
            old(self).wf() ==> final(self).wf(),
    {
        let r = self.pending.pop();
        proof {
            if old(self).pending_dirs().len() > 0 {
                assert(self.pending_dirs() =~= old(self).pending_dirs().drop_last());
            } else {
                assert(self.pending_dirs() =~= old(self).pending_dirs());
            }
        }
        r
    }

    /// Report one entry read out of a queued directory. A subdirectory is
    /// queued in turn; a file is collected unless the filter rejects it.
    pub fn add_entry(&mut self, filter: &IgnoreFilter, path: String, kind: PathKind)
        requires
            filter.wf(),
        ensures
            kind == PathKind::Directory ==> final(self).pending_dirs()
                == old(self).pending_dirs().push(path@)
                && final(self).collected_files() == old(self).collected_files(),
            kind == PathKind::File && !path_is_ignored(path@) ==> final(self).pending_dirs()
                == old(self).pending_dirs()
                && final(self).collected_files() == old(self).collected_files().push(path@),
            kind == PathKind::File && path_is_ignored(path@) || kind == PathKind::Missing
                ==> final(self).pending_dirs() == old(self).pending_dirs()
                && final(self).collected_files() == old(self).collected_files(),
            old(self).wf() ==> final(self).wf(),
    {
        match kind {
            PathKind::Missing => {},
            PathKind::Directory => {
                self.pending.push(path);
                proof {
                    assert(self.pending_dirs() =~= old(self).pending_dirs().push(path@));
                }
            },
            PathKind::File => {
                if !filter.should_ignore(path.as_str()) {
                    self.files.push(path);
                    proof {
                        assert(self.collected_files() =~= old(self).collected_files().push(
                            path@,
                        ));
                    }
                }
            },
        }
    }

    /// The number of files collected so far.
    pub fn file_count(&self) -> (r: usize)
        ensures
            r == self.collected_files().len(),
    {
        self.files.len()
    }

    /// Finish scanning and hand out the collected watch set.
    pub fn into_files(self) -> (r: Vec<String>)
        ensures
            r.deep_view() == self.collected_files(),
    {
        self.files
    }
}

} // verus!
