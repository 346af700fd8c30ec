use transitfeed::EntryPlan;
use transitfeed::LocalFeedProvider;
use transitfeed::plan_entry;
use transitfeed::sanitize_filename;
use transitfeed::FeedProvider;

#[test]
fn parent_references_are_dropped() {
    assert_eq!(sanitize_filename("../../etc/passwd"), "etc/passwd");
    assert_eq!(sanitize_filename(".."), "");
    assert_eq!(sanitize_filename("a/../b"), "a/b");
}

#[test]
fn root_anchors_are_dropped() {
    assert_eq!(sanitize_filename("/etc/passwd"), "etc/passwd");
    assert_eq!(sanitize_filename("//x"), "x");
    assert_eq!(sanitize_filename("\\windows\\system32"), "windows/system32");
}

#[test]
fn embedded_nul_truncates_the_name() {
    assert_eq!(sanitize_filename("evil\u{0}../../x"), "evil");
    assert_eq!(sanitize_filename("\u{0}../../x"), "");
}

#[test]
fn drive_prefixes_are_dropped() {
    assert_eq!(sanitize_filename("C:\\data\\feed.txt"), "data/feed.txt");
    assert_eq!(sanitize_filename("c:/data"), "data");
}

#[test]
fn ordinary_names_survive_unchanged() {
    assert_eq!(sanitize_filename("stops.txt"), "stops.txt");
    assert_eq!(sanitize_filename("feed/stops.txt"), "feed/stops.txt");
    assert_eq!(sanitize_filename("./a/./b"), "a/b");
    assert_eq!(sanitize_filename("a b/c d.txt"), "a b/c d.txt");
}

#[test]
fn trailing_separator_marks_a_directory() {
    assert_eq!(plan_entry("data/"), EntryPlan::Directory("data".to_string()));
    assert_eq!(
        plan_entry("data/stops.txt"),
        EntryPlan::File("data/stops.txt".to_string())
    );
    assert_eq!(
        plan_entry("../escape/"),
        EntryPlan::Directory("escape".to_string())
    );
}

#[test]
fn local_provider_remembers_its_path() {
    let p = LocalFeedProvider::new("./examples/good_feed");
    assert_eq!(p.path(), "./examples/good_feed");
}
