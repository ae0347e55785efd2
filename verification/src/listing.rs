//! Listing the children of one directory.

use vstd::prelude::*;
use crate::entry::{
    classified, classify, entry_views, found_views, DirEntry, DirEntryView, ExtensionSet,
    FoundPath, FoundPathView,
};
use crate::error::GatewayError;
use crate::sorting::{
    is_sorted, lemma_same_members, sort_entries, stable_sorted, ListingOrder,
};
use crate::text::{lex_le, lowercased};

verus! {

/// What the filesystem says of a path.
#[derive(Debug, Clone, Copy, PartialEq, Eq, Structural)]
pub enum PathKind {
    /// Nothing exists at the path.
    Missing,
    /// Something exists there that is no directory.
    File,
    /// A directory exists there.
    Directory,
}

/// The entries that stand for the reported paths, in the order reported.
pub open spec fn listed(found: Seq<FoundPathView>, set: ExtensionSet) -> Seq<DirEntryView> {
    found.map_values(|f: FoundPathView| classified(f, set))
}

/// Accepts a path for listing only where it is a directory.
pub fn directory_check(target: PathKind) -> (r: Result<(), GatewayError>)
    ensures
        target == PathKind::Directory ==> r == Ok::<(), GatewayError>(()),
        target != PathKind::Directory ==> r == Err::<(), GatewayError>(
            GatewayError::DirectoryNotFound,
        ),
{
    match target {
        PathKind::Directory => Ok(()),
        _ => Err(GatewayError::DirectoryNotFound),
    }
}

/// Builds the entry of every reported path, in the order reported.
pub fn classify_all(found: &Vec<FoundPath>, set: ExtensionSet) -> (r: Vec<DirEntry>)
    ensures
        entry_views(r@) == listed(found_views(found@), set),
{
    let mut out: Vec<DirEntry> = Vec::new();
    let mut i: usize = 0;
    while i < found.len()
        invariant
            i <= found@.len(),
            out@.len() == i,
            forall|k: int| 0 <= k < i ==> (#[trigger] out@[k])@ == classified(found@[k]@, set),
        decreases found@.len() - i,
    {
        let e = classify(&found[i], set);
        out.push(e);
        i = i + 1;
    }
    assert(entry_views(out@) =~= listed(found_views(found@), set));
    out
}

/// The listing of a directory. Fails where the path is no directory or could
/// not be enumerated. Otherwise every reported child is handed out once,
/// classified by the listing set of extensions, directories before files and
/// each group by name, ignoring case.
pub fn read_directory(target: PathKind, listing: Result<Vec<FoundPath>, String>) -> (r: Result<
    Vec<DirEntry>,
    GatewayError,
>)
    ensures
        target != PathKind::Directory ==> r == Err::<Vec<DirEntry>, GatewayError>(
            GatewayError::DirectoryNotFound,
        ),
        target == PathKind::Directory ==> match listing {
            Err(e) => r == Err::<Vec<DirEntry>, GatewayError>(
                GatewayError::DirectoryReadFailed(e),
            ),
            Ok(found) => {
                &&& r is Ok
                &&& entry_views(r->Ok_0@) == stable_sorted(
                    listed(found_views(found@), ExtensionSet::Listing),
                    ListingOrder::DirectoriesFirstByName,
                )
                &&& r->Ok_0@.len() == found@.len()
                &&& entry_views(r->Ok_0@).to_multiset() == listed(
                    found_views(found@),
                    ExtensionSet::Listing,
                ).to_multiset()
                &&& is_sorted(entry_views(r->Ok_0@), ListingOrder::DirectoriesFirstByName)
                &&& directories_lead(entry_views(r->Ok_0@))
                &&& videos_are_files(entry_views(r->Ok_0@))
            },
        },
{
    match target {
        PathKind::Directory => match listing {
            Err(e) => Err(GatewayError::DirectoryReadFailed(e)),
            Ok(found) => {
                let entries = classify_all(&found, ExtensionSet::Listing);
                let sorted = sort_entries(entries, ListingOrder::DirectoriesFirstByName);
                proof {
                    assert(entry_views(entries@).len() == entries@.len());
                    assert(found_views(found@).len() == found@.len());
                    lemma_sorted_listing_groups(entry_views(sorted@));
                    let before = listed(found_views(found@), ExtensionSet::Listing);
                    let after = entry_views(sorted@);
                    assert forall|i: int| 0 <= i < after.len() implies !(after[i].is_video
                        && (#[trigger] after[i]).is_dir) by {
                        lemma_same_members(after, before, i);
                        let j = choose|j: int| 0 <= j < before.len() && before[j] == after[i];
                        assert(before[j] == classified(
                            found_views(found@)[j],
                            ExtensionSet::Listing,
                        ));
                    }
                }
                Ok(sorted)
            },
        },
        _ => Err(GatewayError::DirectoryNotFound),
    }
}

/// Whether no entry is both a video and a directory.
pub open spec fn videos_are_files(entries: Seq<DirEntryView>) -> bool {
    forall|i: int|
        0 <= i < entries.len() ==> !((#[trigger] entries[i]).is_video && entries[i].is_dir)
}

/// Whether every directory stands before every file, and within directories
/// and within files the names, in lower case, never decrease.
pub open spec fn directories_lead(entries: Seq<DirEntryView>) -> bool {
    forall|i: int, j: int|
        0 <= i < j < entries.len() ==> {
            &&& (#[trigger] entries[j]).is_dir ==> (#[trigger] entries[i]).is_dir
            &&& entries[i].is_dir == entries[j].is_dir ==> lex_le(
                lowercased(entries[i].name),
                lowercased(entries[j].name),
            )
        }
}

/// A sequence sorted directories first by name has every directory before every
/// file, and within each group names that never decrease when case is ignored.
pub proof fn lemma_sorted_listing_groups(entries: Seq<DirEntryView>)
    requires
        is_sorted(entries, ListingOrder::DirectoriesFirstByName),
    ensures
        directories_lead(entries),
{
}

} // verus!
