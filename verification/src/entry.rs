//! Directory entries and their classification as video files.

use vstd::prelude::*;
use vstd::string::*;
use crate::text::{extension, extension_of, lowercase, lowercased, same_text};

verus! {

/// Which set of file extensions counts as video.
#[derive(Debug, Clone, Copy, PartialEq, Eq, Structural)]
pub enum ExtensionSet {
    /// The set used when one directory is listed.
    Listing,
    /// The wider set used when a tree is scanned: `mpg` and `mpeg` count too.
    Scanning,
}

/// What the filesystem reports of one child of a directory.
#[derive(Debug, Clone)]
pub struct FoundPath {
    /// The last component of the path.
    pub name: String,
    /// The full path.
    pub path: String,
    /// Whether the filesystem says that it is a directory.
    pub is_dir: bool,
}

/// The mathematical value of a `FoundPath`.
pub ghost struct FoundPathView {
    pub name: Seq<char>,
    pub path: Seq<char>,
    pub is_dir: bool,
}

impl View for FoundPath {
    type V = FoundPathView;

    open spec fn view(&self) -> FoundPathView {
        FoundPathView { name: self.name@, path: self.path@, is_dir: self.is_dir }
    }
}

/// One entry of a listing, as handed to the front-end.
#[derive(Debug, Clone)]
pub struct DirEntry {
    pub name: String,
    pub path: String,
    pub is_dir: bool,
    pub is_video: bool,
}

/// The mathematical value of a `DirEntry`.
pub ghost struct DirEntryView {
    pub name: Seq<char>,
    pub path: Seq<char>,
    pub is_dir: bool,
    pub is_video: bool,
}

impl View for DirEntry {
    type V = DirEntryView;

    open spec fn view(&self) -> DirEntryView {
        DirEntryView {
            name: self.name@,
            path: self.path@,
            is_dir: self.is_dir,
            is_video: self.is_video,
        }
    }
}

/// The values of a sequence of entries.
pub open spec fn entry_views(entries: Seq<DirEntry>) -> Seq<DirEntryView> {
    entries.map_values(|e: DirEntry| e@)
}

/// The values of a sequence of reported paths.
pub open spec fn found_views(found: Seq<FoundPath>) -> Seq<FoundPathView> {
    found.map_values(|f: FoundPath| f@)
}

/// Whether a lower-case extension belongs to the given set.
pub open spec fn is_video_extension(lower: Seq<char>, set: ExtensionSet) -> bool {
    ||| lower == "mp4"@
    ||| lower == "avi"@
    ||| lower == "mkv"@
    ||| lower == "mov"@
    ||| lower == "wmv"@
    ||| lower == "flv"@
    ||| lower == "webm"@
    ||| lower == "m4v"@
    ||| lower == "3gp"@
    ||| (set == ExtensionSet::Scanning && (lower == "mpg"@ || lower == "mpeg"@))
}

/// Whether a file of this name counts as video: its extension, in lower case,
/// belongs to the set.
pub open spec fn is_video_name(name: Seq<char>, set: ExtensionSet) -> bool {
    is_video_extension(lowercased(extension_of(name)), set)
}

/// The entry that stands for a reported path: a directory is never a video.
pub open spec fn classified(found: FoundPathView, set: ExtensionSet) -> DirEntryView {
    DirEntryView {
        name: found.name,
        path: found.path,
        is_dir: found.is_dir,
        is_video: !found.is_dir && is_video_name(found.name, set),
    }
}

/// Decides whether an extension that is already in lower case belongs to the
/// set.
pub fn extension_is_video(lower: &String, set: ExtensionSet) -> (r: bool)
    ensures
        r == is_video_extension(lower@, set),
{
    if same_text(lower, "mp4") || same_text(lower, "avi") || same_text(lower, "mkv")
        || same_text(lower, "mov") || same_text(lower, "wmv") || same_text(lower, "flv")
        || same_text(lower, "webm") || same_text(lower, "m4v") || same_text(lower, "3gp") {
        true
    } else {
        match set {
            ExtensionSet::Listing => false,
            ExtensionSet::Scanning => same_text(lower, "mpg") || same_text(lower, "mpeg"),
        }
    }
}

/// Decides whether a file of this name counts as video.
pub fn name_is_video(name: &str, set: ExtensionSet) -> (r: bool)
    ensures
        r == is_video_name(name@, set),
{
    let ext = extension(name);
    let lower = lowercase(ext.as_str());
    extension_is_video(&lower, set)
}

/// Builds the entry for a reported path.
pub fn classify(found: &FoundPath, set: ExtensionSet) -> (r: DirEntry)
    ensures
        r@ == classified(found@, set),
{
    let is_video = !found.is_dir && name_is_video(found.name.as_str(), set);
    DirEntry {
        name: found.name.clone(),
        path: found.path.clone(),
        is_dir: found.is_dir,
        is_video,
    }
}

/// No entry is both a directory and a video.
pub proof fn lemma_video_is_no_directory(found: FoundPathView, set: ExtensionSet)
    ensures
        classified(found, set).is_video ==> !classified(found, set).is_dir,
{
}

/// Classification ignores the case of the extension: names whose extensions
/// agree in lower case are classified alike.
pub proof fn lemma_classification_ignores_case(a: Seq<char>, b: Seq<char>, set: ExtensionSet)
    requires
        lowercased(extension_of(a)) == lowercased(extension_of(b)),
    ensures
        is_video_name(a, set) == is_video_name(b, set),
{
}

/// A name whose extension is `mpg` or `mpeg` in lower case is no video when
/// listing and a video when scanning.
pub proof fn lemma_mpg_only_when_scanning(name: Seq<char>)
    requires
        lowercased(extension_of(name)) == "mpg"@ || lowercased(extension_of(name)) == "mpeg"@,
    ensures
        !is_video_name(name, ExtensionSet::Listing),
        is_video_name(name, ExtensionSet::Scanning),
{
    reveal_strlit("mpg");
    reveal_strlit("mpeg");
    reveal_strlit("mp4");
    reveal_strlit("avi");
    reveal_strlit("mkv");
    reveal_strlit("mov");
    reveal_strlit("wmv");
    reveal_strlit("flv");
    reveal_strlit("webm");
    reveal_strlit("m4v");
    reveal_strlit("3gp");
    let lower = lowercased(extension_of(name));
    assert(lower.len() == 3 || lower.len() == 4);
    assert(lower[2] == 'g' || lower[2] == 'e');
}

/// Whatever counts as video when listing counts as video when scanning.
pub proof fn lemma_scanning_set_is_wider(name: Seq<char>)
    ensures
        is_video_name(name, ExtensionSet::Listing) ==> is_video_name(name, ExtensionSet::Scanning),
{
}

} // verus!
