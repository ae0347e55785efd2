use media_gateway::entry::{
    classify, extension_is_video, name_is_video, DirEntry, ExtensionSet, FoundPath,
};
use media_gateway::error::GatewayError;
use media_gateway::listing::{classify_all, directory_check, read_directory, PathKind};
use media_gateway::scan::{scan_directory_recursive, ScanStep};
use media_gateway::sorting::{entry_precedes, sort_entries, ListingOrder};
use media_gateway::text::{extension, same_text};

fn found(name: &str, path: &str, is_dir: bool) -> FoundPath {
    FoundPath { name: name.to_string(), path: path.to_string(), is_dir }
}

fn entry(name: &str, path: &str, is_dir: bool) -> DirEntry {
    DirEntry { name: name.to_string(), path: path.to_string(), is_dir, is_video: false }
}

fn names(entries: &[DirEntry]) -> Vec<String> {
    entries.iter().map(|e| e.name.clone()).collect()
}

fn paths(entries: &[DirEntry]) -> Vec<String> {
    entries.iter().map(|e| e.path.clone()).collect()
}

#[test]
fn extension_is_what_follows_the_last_dot() {
    assert_eq!(extension("a.MP4"), "MP4");
    assert_eq!(extension("a.b.c"), "c");
    assert_eq!(extension("archive.tar.gz"), "gz");
}

#[test]
fn extension_is_empty_without_an_inner_dot() {
    assert_eq!(extension(""), "");
    assert_eq!(extension("noext"), "");
    assert_eq!(extension(".hidden"), "");
    assert_eq!(extension("a."), "");
    assert_eq!(extension("."), "");
}

#[test]
fn extension_of_a_hidden_file_with_a_second_dot() {
    assert_eq!(extension(".hidden.mkv"), "mkv");
    assert_eq!(extension("..mp4"), "mp4");
}

#[test]
fn extension_counts_characters_not_bytes() {
    assert_eq!(extension("vidéo.mp4"), "mp4");
    assert_eq!(extension("film.émission"), "émission");
}

#[test]
fn same_text_compares_characters() {
    assert!(same_text(&"mp4".to_string(), "mp4"));
    assert!(!same_text(&"mp4".to_string(), "MP4"));
    assert!(!same_text(&"mp4".to_string(), "mp"));
}

#[test]
fn classification_ignores_case() {
    assert!(name_is_video("a.MP4", ExtensionSet::Listing));
    assert!(name_is_video("a.mp4", ExtensionSet::Listing));
    assert!(name_is_video("a.Mp4", ExtensionSet::Scanning));
    assert!(name_is_video("CLIP.WEBM", ExtensionSet::Listing));
}

#[test]
fn mpg_is_video_only_when_scanning() {
    assert!(!name_is_video("a.mpg", ExtensionSet::Listing));
    assert!(name_is_video("a.mpg", ExtensionSet::Scanning));
    assert!(!name_is_video("a.MPEG", ExtensionSet::Listing));
    assert!(name_is_video("a.MPEG", ExtensionSet::Scanning));
}

#[test]
fn every_listing_extension_is_video() {
    for ext in ["mp4", "avi", "mkv", "mov", "wmv", "flv", "webm", "m4v", "3gp"] {
        assert!(extension_is_video(&ext.to_string(), ExtensionSet::Listing));
        assert!(extension_is_video(&ext.to_string(), ExtensionSet::Scanning));
    }
}

#[test]
fn other_extensions_are_no_video() {
    for name in ["a.txt", "a.srt", "mp4", ".mp4", "a.mp4.bak", "a.mp", "a.mp44", "a."] {
        assert!(!name_is_video(name, ExtensionSet::Listing));
        assert!(!name_is_video(name, ExtensionSet::Scanning));
    }
    assert!(!extension_is_video(&"MP4".to_string(), ExtensionSet::Listing));
}

#[test]
fn a_directory_is_never_a_video() {
    let e = classify(&found("season.mp4", "/v/season.mp4", true), ExtensionSet::Listing);
    assert!(e.is_dir);
    assert!(!e.is_video);
    assert_eq!(e.name, "season.mp4");
    assert_eq!(e.path, "/v/season.mp4");
    let f = classify(&found("season.mp4", "/v/season.mp4", false), ExtensionSet::Listing);
    assert!(!f.is_dir);
    assert!(f.is_video);
}

#[test]
fn classify_all_keeps_the_order() {
    let all = classify_all(
        &vec![found("b.mkv", "/b.mkv", false), found("a.txt", "/a.txt", false)],
        ExtensionSet::Listing,
    );
    assert_eq!(names(&all), vec!["b.mkv", "a.txt"]);
    assert!(all[0].is_video);
    assert!(!all[1].is_video);
}

#[test]
fn directory_check_accepts_directories_only() {
    assert!(directory_check(PathKind::Directory).is_ok());
    assert_eq!(
        directory_check(PathKind::Missing).unwrap_err().message(),
        "Directory does not exist"
    );
    assert_eq!(directory_check(PathKind::File).unwrap_err().message(), "Directory does not exist");
}

#[test]
fn read_directory_of_a_missing_path_is_not_found() {
    let r = read_directory(PathKind::Missing, Ok(vec![]));
    assert!(matches!(r, Err(GatewayError::DirectoryNotFound)));
}

#[test]
fn read_directory_of_a_file_is_not_found() {
    let r = read_directory(PathKind::File, Ok(vec![found("a", "/a", false)]));
    assert!(matches!(r, Err(GatewayError::DirectoryNotFound)));
}

#[test]
fn read_directory_reports_a_failed_enumeration() {
    let r = read_directory(PathKind::Directory, Err("permission denied".to_string()));
    let e = r.unwrap_err();
    assert!(matches!(e, GatewayError::DirectoryReadFailed(_)));
    assert_eq!(e.message(), "Failed to read directory: permission denied");
}

#[test]
fn read_directory_of_an_empty_directory_is_empty() {
    let r = read_directory(PathKind::Directory, Ok(vec![]));
    assert_eq!(r.unwrap().len(), 0);
}

#[test]
fn read_directory_puts_directories_first_and_ignores_case() {
    let r = read_directory(
        PathKind::Directory,
        Ok(vec![
            found("zeta.mp4", "/d/zeta.mp4", false),
            found("Beta", "/d/Beta", true),
            found("alpha.MKV", "/d/alpha.MKV", false),
            found("Gamma.mpg", "/d/Gamma.mpg", false),
            found("alpha", "/d/alpha", true),
            found("notes.txt", "/d/notes.txt", false),
        ]),
    )
    .unwrap();
    assert_eq!(
        names(&r),
        vec!["alpha", "Beta", "alpha.MKV", "Gamma.mpg", "notes.txt", "zeta.mp4"]
    );
    let videos: Vec<bool> = r.iter().map(|e| e.is_video).collect();
    assert_eq!(videos, vec![false, false, true, false, false, true]);
    let dirs: Vec<bool> = r.iter().map(|e| e.is_dir).collect();
    assert_eq!(dirs, vec![true, true, false, false, false, false]);
    assert_eq!(r[2].path, "/d/alpha.MKV");
}

#[test]
fn sort_keeps_the_order_of_names_that_differ_in_case_only() {
    let r = sort_entries(
        vec![entry("A", "/1", false), entry("b", "/2", false), entry("a", "/3", false)],
        ListingOrder::DirectoriesFirstByName,
    );
    assert_eq!(paths(&r), vec!["/1", "/3", "/2"]);
}

#[test]
fn sort_by_path_ignores_case_and_names() {
    let r = sort_entries(
        vec![
            entry("a", "/Z/a", false),
            entry("z", "/b/z", false),
            entry("m", "/B/a", true),
            entry("q", "/a", false),
        ],
        ListingOrder::ByPath,
    );
    assert_eq!(paths(&r), vec!["/a", "/B/a", "/b/z", "/Z/a"]);
}

#[test]
fn a_prefix_comes_first() {
    assert!(entry_precedes(&entry("ab", "", false), &entry("abc", "", false), ListingOrder::DirectoriesFirstByName));
    assert!(!entry_precedes(&entry("abc", "", false), &entry("ab", "", false), ListingOrder::DirectoriesFirstByName));
    assert!(entry_precedes(&entry("ab", "", false), &entry("AB", "", false), ListingOrder::DirectoriesFirstByName));
    assert!(entry_precedes(&entry("z", "", true), &entry("a", "", false), ListingOrder::DirectoriesFirstByName));
    assert!(!entry_precedes(&entry("a", "", false), &entry("z", "", true), ListingOrder::DirectoriesFirstByName));
    assert!(entry_precedes(&entry("z", "/a", false), &entry("a", "/B", true), ListingOrder::ByPath));
    assert!(!entry_precedes(&entry("a", "/c", true), &entry("z", "/B", false), ListingOrder::ByPath));
}

#[test]
fn scan_of_a_missing_path_is_not_found() {
    let r = scan_directory_recursive("/nowhere".to_string(), PathKind::Missing);
    assert_eq!(r.unwrap_err().message(), "Directory does not exist");
    let r = scan_directory_recursive("/file.mp4".to_string(), PathKind::File);
    assert!(matches!(r, Err(GatewayError::DirectoryNotFound)));
}

#[test]
fn scan_begins_with_the_root_due() {
    let scan = scan_directory_recursive("/root".to_string(), PathKind::Directory).unwrap();
    assert_eq!(scan.next_directory(), Some(&"/root".to_string()));
    assert!(scan.at_root);
    assert_eq!(scan.finish().len(), 0);
}

#[test]
fn scan_goes_on_after_an_unreadable_subdirectory() {
    let mut scan = scan_directory_recursive("/root".to_string(), PathKind::Directory).unwrap();
    let step = scan.absorb(Ok(vec![
        found("b.mp4", "/root/b.mp4", false),
        found("sub", "/root/sub", true),
        found("other", "/root/other", true),
        found("readme.txt", "/root/readme.txt", false),
    ]));
    assert!(matches!(step, ScanStep::Taken));
    assert_eq!(scan.next_directory(), Some(&"/root/other".to_string()));
    let step = scan.absorb(Ok(vec![found("A.MPG", "/root/other/A.MPG", false)]));
    assert!(matches!(step, ScanStep::Taken));
    assert_eq!(scan.next_directory(), Some(&"/root/sub".to_string()));
    let step = scan.absorb(Err("permission denied".to_string()));
    match step {
        ScanStep::Skipped(w) => assert_eq!(
            w,
            "Warning: Failed to scan directory /root/sub: Failed to read directory: permission denied"
        ),
        _ => panic!("the subdirectory is skipped with a warning"),
    }
    assert_eq!(scan.next_directory(), None);
    let r = scan.finish();
    assert_eq!(paths(&r), vec!["/root/b.mp4", "/root/other/A.MPG", "/root/readme.txt"]);
    let videos: Vec<bool> = r.iter().map(|e| e.is_video).collect();
    assert_eq!(videos, vec![true, true, false]);
    assert!(r.iter().all(|e| !e.is_dir));
}

#[test]
fn scan_fails_where_the_root_cannot_be_read() {
    let mut scan = scan_directory_recursive("/root".to_string(), PathKind::Directory).unwrap();
    let step = scan.absorb(Err("gone".to_string()));
    match step {
        ScanStep::Failed(e) => assert_eq!(e.message(), "Failed to read directory: gone"),
        _ => panic!("the scan has failed"),
    }
    assert_eq!(scan.next_directory(), None);
    assert!(!scan.at_root);
}

#[test]
fn scan_result_is_sorted_by_path_ignoring_case() {
    let mut scan = scan_directory_recursive("/r".to_string(), PathKind::Directory).unwrap();
    scan.absorb(Ok(vec![
        found("b.avi", "/r/b.avi", false),
        found("Z", "/r/Z", true),
        found("A.avi", "/r/A.avi", false),
    ]));
    scan.absorb(Ok(vec![found("c.mov", "/r/Z/c.mov", false), found("deep", "/r/Z/deep", true)]));
    scan.absorb(Ok(vec![]));
    assert_eq!(scan.next_directory(), None);
    let r = scan.finish();
    assert_eq!(paths(&r), vec!["/r/A.avi", "/r/b.avi", "/r/Z/c.mov"]);
}
