use watchit::{Watch, WatchSet};

fn file(path: &str) -> Watch {
    Watch::File(path.to_string())
}

fn directory(path: &str) -> Watch {
    Watch::Directory(path.to_string())
}

#[test]
fn targets_are_equal_by_kind_and_path() {
    assert_eq!(file("/r/a.txt"), file("/r/a.txt"));
    assert_ne!(file("/r/a.txt"), file("/r/b.txt"));
    assert_ne!(file("/r"), directory("/r"));
    assert_eq!(directory("/r"), directory("/r"));
}

#[test]
fn target_reports_path_and_kind() {
    assert_eq!(file("/r/a.txt").path(), "/r/a.txt");
    assert_eq!(directory("/r").path(), "/r");
    assert!(directory("/r").is_directory());
    assert!(!file("/r").is_directory());
    assert_eq!(file("/r/a.txt").clone(), file("/r/a.txt"));
}

#[test]
fn empty_set_holds_nothing() {
    let set = WatchSet::new();
    assert_eq!(set.len(), 0);
    assert!(!set.contains(&file("/r/a.txt")));
    assert!(set.to_vec().is_empty());
}

#[test]
fn insert_adds_each_target_once() {
    let mut set = WatchSet::new();
    assert!(set.insert(file("/r/a.txt")));
    assert!(set.insert(directory("/r")));
    assert!(!set.insert(file("/r/a.txt")));
    assert_eq!(set.len(), 2);
    assert!(set.contains(&file("/r/a.txt")));
    assert!(set.contains(&directory("/r")));
    assert!(!set.contains(&directory("/r/a.txt")));
    assert!(!set.contains(&file("/r")));
    assert_eq!(set.to_vec(), vec![file("/r/a.txt"), directory("/r")]);
}
