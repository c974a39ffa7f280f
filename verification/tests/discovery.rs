use watchit::{discover_watches, untracked_entry, watch_file, DiscoverError, Probe, Watch, WatchSet};

fn resolved(path: &str) -> Probe {
    Probe::Resolved(path.to_string())
}

#[test]
fn untracked_line_gives_its_name() {
    assert_eq!(untracked_entry("?? src/new.rs"), Some("src/new.rs".to_string()));
    assert_eq!(untracked_entry("?? a b.txt"), Some("a b.txt".to_string()));
    assert_eq!(untracked_entry("?? "), Some(String::new()));
    assert_eq!(untracked_entry("?? \u{e9}t\u{e9}.txt"), Some("\u{e9}t\u{e9}.txt".to_string()));
}

#[test]
fn other_status_lines_give_none() {
    assert_eq!(untracked_entry(" M src/lib.rs"), None);
    assert_eq!(untracked_entry("A  src/new.rs"), None);
    assert_eq!(untracked_entry("??"), None);
    assert_eq!(untracked_entry("??x"), None);
    assert_eq!(untracked_entry(""), None);
    assert_eq!(untracked_entry("!! target/"), None);
}

#[test]
fn each_file_brings_its_directory() {
    let probes = vec![resolved("/r/src/a.rs"), resolved("/r/src/b.rs"), resolved("/r/README")];
    let set = discover_watches(&probes).unwrap();
    assert_eq!(set.len(), 5);
    assert!(set.contains(&Watch::File("/r/src/a.rs".to_string())));
    assert!(set.contains(&Watch::File("/r/src/b.rs".to_string())));
    assert!(set.contains(&Watch::File("/r/README".to_string())));
    assert!(set.contains(&Watch::Directory("/r/src".to_string())));
    assert!(set.contains(&Watch::Directory("/r".to_string())));
    assert!(!set.contains(&Watch::Directory("/r/src/a.rs".to_string())));
}

#[test]
fn inaccessible_file_is_left_out() {
    let probes = vec![Probe::Inaccessible, resolved("/r/a.txt"), Probe::Inaccessible];
    let set = discover_watches(&probes).unwrap();
    assert_eq!(set.len(), 2);
    assert!(set.contains(&Watch::File("/r/a.txt".to_string())));
    assert!(set.contains(&Watch::Directory("/r".to_string())));
}

#[test]
fn no_probes_give_the_empty_set() {
    let set = discover_watches(&Vec::new()).unwrap();
    assert_eq!(set.len(), 0);
}

#[test]
fn first_unresolved_path_fails_the_discovery() {
    let probes = vec![
        resolved("/r/a.txt"),
        Probe::Unresolved("first".to_string()),
        Probe::Unresolved("second".to_string()),
    ];
    match discover_watches(&probes) {
        Err(DiscoverError::Canonicalize(cause)) => assert_eq!(cause, "first"),
        other => panic!("{:?}", other),
    }
}

#[test]
fn path_without_parent_fails_the_discovery() {
    let probes = vec![resolved("/r/a.txt"), resolved("/")];
    match discover_watches(&probes) {
        Err(DiscoverError::NoParent(path)) => assert_eq!(path, "/"),
        other => panic!("{:?}", other),
    }
}

#[test]
fn watch_file_adds_file_and_directory() {
    let mut set = WatchSet::new();
    watch_file(&mut set, "/r/a.txt".to_string(), "/r".to_string());
    watch_file(&mut set, "/r/b.txt".to_string(), "/r".to_string());
    assert_eq!(set.len(), 3);
    assert!(set.contains(&Watch::File("/r/b.txt".to_string())));
    assert!(set.contains(&Watch::Directory("/r".to_string())));
}
