use caesiumclt::scanfiles::{is_selected, is_supported_type, walk_depth};
use caesiumclt::{is_valid, scanfiles, RootListing, WalkEntry};

fn file(path: &str, depth: usize) -> WalkEntry {
    WalkEntry { path: path.to_string(), depth, is_file: true, is_dir: false }
}

fn dir(path: &str, depth: usize) -> WalkEntry {
    WalkEntry { path: path.to_string(), depth, is_file: false, is_dir: true }
}

fn directory_root(path: &str, entries: Vec<WalkEntry>) -> RootListing {
    RootListing { path: path.to_string(), exists: true, is_dir: true, entries }
}

fn file_root(path: &str) -> RootListing {
    RootListing { path: path.to_string(), exists: true, is_dir: false, entries: vec![] }
}

fn missing_root(path: &str) -> RootListing {
    RootListing { path: path.to_string(), exists: false, is_dir: false, entries: vec![] }
}

fn photos() -> RootListing {
    directory_root(
        "photos",
        vec![
            dir("photos", 0),
            file("photos/a.jpg", 1),
            dir("photos/sub", 1),
            file("photos/sub/b.png", 2),
        ],
    )
}

#[test]
fn flat_scan_returns_the_children_only() {
    let files = scanfiles(vec![photos()], false);
    assert_eq!(files, vec!["photos/a.jpg".to_string()]);
}

#[test]
fn recursive_scan_returns_the_whole_tree() {
    let files = scanfiles(vec![photos()], true);
    assert_eq!(files, vec!["photos/a.jpg".to_string(), "photos/sub/b.png".to_string()]);
}

#[test]
fn scan_filters_by_guessed_type_whatever_the_case_of_the_extension() {
    let root = directory_root(
        "in",
        vec![
            dir("in", 0),
            file("in/notes.txt", 1),
            file("in/photo.JPG", 1),
            file("in/photo.png", 1),
            file("in/scan.JpEg", 1),
            file("in/clip.gif", 1),
            file("in/README", 1),
            file("in/jpg", 1),
        ],
    );
    let files = scanfiles(vec![root], false);
    assert_eq!(
        files,
        vec!["in/photo.JPG".to_string(), "in/photo.png".to_string(), "in/scan.JpEg".to_string()]
    );
}

#[test]
fn a_named_file_is_taken_whatever_its_type() {
    let files = scanfiles(vec![file_root("notes.txt"), file_root("a.jpg")], false);
    assert_eq!(files, vec!["notes.txt".to_string(), "a.jpg".to_string()]);
}

#[test]
fn a_missing_root_is_passed_over() {
    let files = scanfiles(vec![missing_root("gone.jpg"), file_root("a.jpg")], true);
    assert_eq!(files, vec!["a.jpg".to_string()]);
    let mut listed = missing_root("gone");
    listed.is_dir = true;
    listed.entries = vec![file("gone/a.jpg", 1)];
    assert!(scanfiles(vec![listed], true).is_empty());
}

#[test]
fn no_roots_give_no_files() {
    assert!(scanfiles(vec![], true).is_empty());
    assert!(scanfiles(vec![directory_root("empty", vec![dir("empty", 0)])], true).is_empty());
}

#[test]
fn directories_are_never_files() {
    let root = directory_root(
        "in",
        vec![dir("in", 0), dir("in/album.jpg", 1), dir("in/deep", 1), dir("in/deep/x.png", 2)],
    );
    assert!(scanfiles(vec![root], true).is_empty());
}

fn link(path: &str, depth: usize, to_dir: bool) -> WalkEntry {
    WalkEntry { path: path.to_string(), depth, is_file: false, is_dir: to_dir }
}

#[test]
fn an_entry_that_is_no_regular_file_is_filtered_by_type_too() {
    assert!(!is_valid(&link("in/link", 1, false)));
    assert!(!is_valid(&link("in/link.txt", 1, false)));
    assert!(is_valid(&link("in/link.jpg", 1, false)));
    assert!(is_valid(&link("in/link.PNG", 1, false)));
    let root = directory_root(
        "in",
        vec![
            dir("in", 0),
            link("in/link", 1, false),
            link("in/link.txt", 1, false),
            link("in/link.jpg", 1, false),
            link("in/album.png", 1, true),
        ],
    );
    assert_eq!(scanfiles(vec![root], false), vec!["in/link.jpg".to_string()]);
}

#[test]
fn a_directory_passes_the_walk_whatever_its_name() {
    assert!(is_valid(&dir("in/notes.txt", 1)));
    assert!(is_valid(&dir("in/plain", 1)));
    assert!(is_valid(&link("in/other", 1, true)));
    assert!(is_valid(&link("in/other.txt", 1, true)));
    assert!(!is_selected(&link("in/other.jpg", 1, true), true));
}

#[test]
fn roots_come_in_their_order_and_twice_if_given_twice() {
    let files = scanfiles(vec![file_root("b.png"), photos(), file_root("b.png"), photos()], false);
    assert_eq!(
        files,
        vec![
            "b.png".to_string(),
            "photos/a.jpg".to_string(),
            "b.png".to_string(),
            "photos/a.jpg".to_string(),
        ]
    );
}

#[test]
fn is_valid_asks_the_type_of_regular_files() {
    assert!(is_valid(&file("a.jpg", 1)));
    assert!(is_valid(&file("a.jpeg", 1)));
    assert!(is_valid(&file("dir.d/a.PNG", 3)));
    assert!(!is_valid(&file("a.txt", 1)));
    assert!(!is_valid(&file("a.gif", 1)));
    assert!(!is_valid(&file("image/jpeg", 1)));
    assert!(!is_valid(&file("a.jpg/b", 1)));
    assert!(!is_valid(&file("", 1)));
    assert!(is_valid(&dir("a.txt", 1)));
}

#[test]
fn is_selected_applies_depth_type_and_kind() {
    assert!(is_selected(&file("a.jpg", 1), false));
    assert!(is_selected(&file("a.jpg", 0), false));
    assert!(!is_selected(&file("s/a.jpg", 2), false));
    assert!(is_selected(&file("s/a.jpg", 2), true));
    assert!(is_selected(&file("s/t/u/a.jpg", 4), true));
    assert!(!is_selected(&file("a.txt", 1), true));
    assert!(!is_selected(&dir("a.jpg", 1), true));
}

#[test]
fn supported_types_are_jpeg_and_png_exactly() {
    assert!(is_supported_type(&Some("image/jpeg".to_string())));
    assert!(is_supported_type(&Some("image/png".to_string())));
    assert!(!is_supported_type(&Some("image/gif".to_string())));
    assert!(!is_supported_type(&Some("image/jpeg ".to_string())));
    assert!(!is_supported_type(&Some("IMAGE/JPEG".to_string())));
    assert!(!is_supported_type(&Some("image/jpeg; q=1".to_string())));
    assert!(!is_supported_type(&Some("text/plain".to_string())));
    assert!(!is_supported_type(&Some(String::new())));
    assert!(!is_supported_type(&None));
}

#[test]
fn walk_depth_is_one_unless_recursive() {
    assert_eq!(walk_depth(false), Some(1));
    assert_eq!(walk_depth(true), None);
}
