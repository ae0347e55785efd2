//! Scanning a directory tree for files, one directory at a time.
//!
//! The caller reads the directories; the scan says which one is due, takes what
//! was found in it, and in the end hands out the files in order.

use vstd::prelude::*;
use vstd::string::*;
use crate::entry::{
    classified, classify, entry_views, found_views, DirEntry, DirEntryView, ExtensionSet,
    FoundPath, FoundPathView,
};
use crate::error::GatewayError;
use crate::listing::PathKind;
use crate::sorting::{
    is_sorted, lemma_same_members, sort_entries, stable_sorted, ListingOrder,
};

verus! {

/// A scan under way.
#[derive(Debug)]
pub struct TreeScan {
    /// The directories still to be read; the last one is due next.
    pub pending: Vec<String>,
    /// The files found so far.
    pub found: Vec<DirEntry>,
    /// Whether the directory due next is the one the scan began with.
    pub at_root: bool,
}

/// What became of one directory of the scan.
#[derive(Debug)]
pub enum ScanStep {
    /// Its children were taken in.
    Taken,
    /// It could not be read and is left out; the text is the warning to log.
    Skipped(String),
    /// It is the directory the scan began with and could not be read: the scan
    /// has failed.
    Failed(GatewayError),
}

/// The texts of a sequence of strings.
pub open spec fn path_views(paths: Seq<String>) -> Seq<Seq<char>> {
    paths.map_values(|p: String| p@)
}

/// The entries of the files among the first `n` reported children, classified
/// by the scanning set of extensions, in the order reported.
pub open spec fn files_among(children: Seq<FoundPathView>, n: int) -> Seq<DirEntryView>
    decreases n,
{
    if n <= 0 {
        Seq::empty()
    } else if children[n - 1].is_dir {
        files_among(children, n - 1)
    } else {
        files_among(children, n - 1).push(classified(children[n - 1], ExtensionSet::Scanning))
    }
}

/// The paths of the directories among the first `n` reported children, in the
/// order reported.
pub open spec fn directories_among(children: Seq<FoundPathView>, n: int) -> Seq<Seq<char>>
    decreases n,
{
    if n <= 0 {
        Seq::empty()
    } else if children[n - 1].is_dir {
        directories_among(children, n - 1).push(children[n - 1].path)
    } else {
        directories_among(children, n - 1)
    }
}

/// The warning logged for a directory that could not be read: it names the
/// directory, then gives the message of the failed enumeration.
pub open spec fn skip_warning(directory: Seq<char>, reason: Seq<char>) -> Seq<char> {
    "Warning: Failed to scan directory "@ + directory + ": "@ + ("Failed to read directory: "@
        + reason)
}

/// No entry of the sequence is a directory.
pub open spec fn no_directories(entries: Seq<DirEntryView>) -> bool {
    forall|i: int| 0 <= i < entries.len() ==> !(#[trigger] entries[i]).is_dir
}

/// Begins a scan of the tree under `path`. Fails where the path is no
/// directory; otherwise that directory is due and nothing is found yet.
pub fn scan_directory_recursive(path: String, target: PathKind) -> (r: Result<
    TreeScan,
    GatewayError,
>)
    ensures
        target != PathKind::Directory ==> r == Err::<TreeScan, GatewayError>(
            GatewayError::DirectoryNotFound,
        ),
        target == PathKind::Directory ==> {
            &&& r is Ok
            &&& r->Ok_0.wf()
            &&& r->Ok_0.pending@ == seq![path]
            &&& r->Ok_0.found@.len() == 0
            &&& r->Ok_0.at_root
        },
{
    match target {
        PathKind::Directory => {
            let mut pending: Vec<String> = Vec::new();
            pending.push(path);
            let scan = TreeScan { pending, found: Vec::new(), at_root: true };
            assert(scan.pending@ =~= seq![path]);
            Ok(scan)
        },
        _ => Err(GatewayError::DirectoryNotFound),
    }
}

impl TreeScan {
    /// What holds of every scan: nothing found is a directory.
    pub open spec fn wf(&self) -> bool {
        no_directories(entry_views(self.found@))
    }

    /// The directory to read next, if any is left.
    pub fn next_directory(&self) -> (r: Option<&String>)
        ensures
            self.pending@.len() == 0 ==> r is None,
            self.pending@.len() > 0 ==> r == Some(&self.pending@[self.pending@.len() - 1]),
    {
        let n: usize = self.pending.len();
        if n == 0 {
            None
        } else {
            Some(&self.pending[n - 1])
        }
    }

    /// Takes in what reading the due directory gave. Its subdirectories become
    /// due, the last reported first; its files are added to what was found. A
    /// directory that could not be read is dropped with a warning, unless it is
    /// the one the scan began with: then the scan has failed.
    pub fn absorb(&mut self, listing: Result<Vec<FoundPath>, String>) -> (r: ScanStep)
        requires
            old(self).wf(),
            old(self).pending@.len() > 0,
        ensures
            final(self).wf(),
            !final(self).at_root,
            match listing {
                Ok(children) => {
                    &&& r is Taken
                    &&& path_views(final(self).pending@) == path_views(
                        old(self).pending@.drop_last(),
                    ) + directories_among(found_views(children@), children@.len() as int)
                    &&& entry_views(final(self).found@) == entry_views(old(self).found@)
                        + files_among(found_views(children@), children@.len() as int)
                },
                Err(e) => {
                    &&& final(self).pending@ == old(self).pending@.drop_last()
                    &&& final(self).found@ == old(self).found@
                    &&& old(self).at_root ==> r == ScanStep::Failed(
                        GatewayError::DirectoryReadFailed(e),
                    )
                    &&& !old(self).at_root ==> r is Skipped && r->Skipped_0@ == skip_warning(
                        old(self).pending@.last()@,
                        e@,
                    )
                },
            },
    {
        let was_root = self.at_root;
        let directory = self.pending.pop().unwrap();
        self.at_root = false;
        assert(self.pending@ =~= old(self).pending@.drop_last());
        match listing {
            Err(e) => {
                if was_root {
                    ScanStep::Failed(GatewayError::DirectoryReadFailed(e))
                } else {
                    let reason = GatewayError::DirectoryReadFailed(e).message();
                    let warning = String::from_str("Warning: Failed to scan directory ").concat(
                        directory.as_str(),
                    ).concat(": ").concat(reason.as_str());
                    ScanStep::Skipped(warning)
                }
            },
            Ok(children) => {
                let ghost kids = found_views(children@);
                let ghost pending0 = path_views(self.pending@);
                let ghost found0 = entry_views(self.found@);
                let mut i: usize = 0;
                assert(path_views(self.pending@) =~= pending0 + directories_among(kids, 0));
                assert(entry_views(self.found@) =~= found0 + files_among(kids, 0));
                while i < children.len()
                    invariant
                        i <= children@.len(),
                        kids == found_views(children@),
                        !self.at_root,
                        no_directories(found0),
                        path_views(self.pending@) == pending0 + directories_among(
                            kids,
                            i as int,
                        ),
                        entry_views(self.found@) == found0 + files_among(kids, i as int),
                        no_directories(entry_views(self.found@)),
                    decreases children@.len() - i,
                {
                    let child = &children[i];
                    let ghost pending1 = path_views(self.pending@);
                    let ghost found1 = entry_views(self.found@);
                    assert(kids[i as int] == child@);
                    if child.is_dir {
                        self.pending.push(child.path.clone());
                        assert(path_views(self.pending@) =~= pending1.push(child.path@));
                        assert(path_views(self.pending@) =~= pending0 + directories_among(
                            kids,
                            i + 1,
                        ));
                    } else {
                        let e = classify(child, ExtensionSet::Scanning);
                        self.found.push(e);
                        assert(entry_views(self.found@) =~= found1.push(e@));
                        assert(entry_views(self.found@) =~= found0 + files_among(kids, i + 1));
                    }
                    i = i + 1;
                }
                ScanStep::Taken
            },
        }
    }

    /// Ends the scan: the files found, each once, by full path, ignoring case.
    /// None of them is a directory.
    pub fn finish(self) -> (r: Vec<DirEntry>)
        requires
            self.wf(),
        ensures
            entry_views(r@) == stable_sorted(entry_views(self.found@), ListingOrder::ByPath),
            is_sorted(entry_views(r@), ListingOrder::ByPath),
            entry_views(r@).to_multiset() == entry_views(self.found@).to_multiset(),
            r@.len() == self.found@.len(),
            no_directories(entry_views(r@)),
    {
        let ghost before = entry_views(self.found@);
        let out = sort_entries(self.found, ListingOrder::ByPath);
        proof {
            let after = entry_views(out@);
            assert forall|i: int| 0 <= i < after.len() implies !(#[trigger] after[i]).is_dir by {
                lemma_same_members(after, before, i);
            }
        }
        out
    }
}

} // verus!
