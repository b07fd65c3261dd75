use std::io::Write;
use std::sync::mpsc::RecvTimeoutError;
use std::time::{Duration, Instant};

use recursive_file_watcher::event::BackendErrorKind;
use recursive_file_watcher::tree::{DirEntry, DirTree};
use recursive_file_watcher::watcher::{ManualRecursiveWatcher, NativeRecursiveWatcher};

fn text(path: &std::path::Path) -> String {
    path.to_str().unwrap().to_string()
}

fn touch(file: &mut tempfile::NamedTempFile, content: &[u8]) {
    file.as_file_mut().write_all(content).unwrap();
    file.as_file_mut().sync_all().unwrap();
}

#[test]
fn per_file_watcher_fails_when_a_path_does_not_exist() {
    let dir = tempfile::tempdir().unwrap();
    let present = tempfile::NamedTempFile::new_in(dir.path()).unwrap();
    let missing = format!("{}/does-not-exist.txt", text(dir.path()));

    let made = ManualRecursiveWatcher::new_with_files(vec![text(present.path()), missing.clone()]);
    let error = made.err().expect("no handle for a list with a missing path");
    assert!(matches!(error.kind, BackendErrorKind::Io(_)));
    assert_eq!(error.paths, vec![missing]);
}

#[test]
fn per_file_watcher_counts_the_files_it_was_given() {
    let dir = tempfile::tempdir().unwrap();
    let first = tempfile::NamedTempFile::new_in(dir.path()).unwrap();
    let second = tempfile::NamedTempFile::new_in(dir.path()).unwrap();

    let watcher =
        ManualRecursiveWatcher::new_with_files(vec![text(first.path()), text(second.path())]).unwrap();
    assert_eq!(watcher.files_watched(), 2);
    assert!(watcher.setup_time() < Duration::from_secs(20));
}

#[test]
fn per_file_watcher_over_no_files_is_active_and_silent() {
    let watcher = ManualRecursiveWatcher::new_with_files(Vec::new()).unwrap();
    assert_eq!(watcher.files_watched(), 0);
    assert!(matches!(
        watcher.receiver().recv_timeout(Duration::from_millis(100)),
        Err(RecvTimeoutError::Timeout)
    ));
}

#[test]
fn per_file_watcher_over_a_tree_watches_its_regular_files() {
    let dir = tempfile::tempdir().unwrap();
    let file = tempfile::Builder::new().prefix("leaf").tempfile_in(dir.path()).unwrap();
    let name = file.path().file_name().unwrap().to_str().unwrap().to_string();
    let tree = DirTree {
        root: text(dir.path()),
        listing: Some(vec![
            DirEntry::File { name },
            DirEntry::Directory { name: "unread".to_string(), listing: None },
        ]),
    };

    let watcher = ManualRecursiveWatcher::new(&tree).unwrap();
    assert_eq!(watcher.files_watched(), 1);
}

#[test]
fn per_file_watcher_reports_a_change_of_a_watched_file() {
    let dir = tempfile::tempdir().unwrap();
    let mut file = tempfile::NamedTempFile::new_in(dir.path()).unwrap();
    let path = text(file.path());

    let watcher = ManualRecursiveWatcher::new_with_files(vec![path.clone()]).unwrap();
    touch(&mut file, b"changed");

    let event = watcher.receiver().recv_timeout(Duration::from_secs(10)).unwrap().unwrap();
    assert!(event.paths.contains(&path));
}

#[test]
fn recursive_watcher_on_an_empty_directory_is_silent() {
    let dir = tempfile::tempdir().unwrap();
    let watcher = NativeRecursiveWatcher::new(&text(dir.path())).unwrap();
    assert!(matches!(
        watcher.receiver().recv_timeout(Duration::from_millis(300)),
        Err(RecvTimeoutError::Timeout)
    ));
    assert!(watcher.setup_time() < Duration::from_secs(20));
}

#[test]
fn recursive_watcher_fails_when_the_root_does_not_exist() {
    let dir = tempfile::tempdir().unwrap();
    let missing = format!("{}/no-such-root", text(dir.path()));
    assert!(NativeRecursiveWatcher::new(&missing).is_err());
    assert!(NativeRecursiveWatcher::new_with_filter(&missing, Vec::new()).is_err());
}

#[test]
fn recursive_watcher_reports_a_file_created_after_registration() {
    let dir = tempfile::tempdir().unwrap();
    let watcher = NativeRecursiveWatcher::new(&text(dir.path())).unwrap();

    let file = tempfile::NamedTempFile::new_in(dir.path()).unwrap();
    let path = text(file.path());

    let deadline = Instant::now() + Duration::from_secs(10);
    let mut seen = false;
    while !seen && Instant::now() < deadline {
        if let Ok(Ok(event)) = watcher.receiver().recv_timeout(Duration::from_millis(100)) {
            seen = event.paths.contains(&path);
        }
    }
    assert!(seen);
}

#[test]
fn filtered_watcher_reports_a_and_not_b() {
    let dir = tempfile::tempdir().unwrap();
    let mut a = tempfile::Builder::new().prefix("a").tempfile_in(dir.path()).unwrap();
    let mut b = tempfile::Builder::new().prefix("b").tempfile_in(dir.path()).unwrap();
    let a_path = text(a.path());

    let watcher =
        NativeRecursiveWatcher::new_with_filter(&text(dir.path()), vec![a_path.clone()]).unwrap();
    assert_eq!(watcher.files_filtered(), 1);

    touch(&mut b, b"not reported");
    assert!(matches!(
        watcher.receiver().recv_timeout(Duration::from_millis(500)),
        Err(RecvTimeoutError::Timeout)
    ));

    touch(&mut a, b"reported");
    let first = watcher.receiver().recv_timeout(Duration::from_secs(10)).unwrap().unwrap();
    assert!(first.paths.contains(&a_path));
    while let Ok(more) = watcher.receiver().recv_timeout(Duration::from_millis(300)) {
        assert!(more.unwrap().paths.contains(&a_path));
    }
}

#[test]
fn filter_set_counts_only_existing_regular_files() {
    let dir = tempfile::tempdir().unwrap();
    let a = tempfile::NamedTempFile::new_in(dir.path()).unwrap();
    let root = text(dir.path());
    let candidates = vec![text(a.path()), format!("{}/missing", root), root.clone(), text(a.path())];

    let watcher = NativeRecursiveWatcher::new_with_filter(&root, candidates).unwrap();
    assert_eq!(watcher.files_filtered(), 1);
    assert!(watcher.setup_time() < Duration::from_secs(20));
}

#[test]
fn dropping_the_watch_owner_closes_the_channel() {
    let dir = tempfile::tempdir().unwrap();
    let watcher = NativeRecursiveWatcher::new(&text(dir.path())).unwrap();
    let (owner, receiver) = watcher.into_parts();
    drop(owner);

    let deadline = Instant::now() + Duration::from_secs(10);
    let mut closed = false;
    while !closed && Instant::now() < deadline {
        closed = matches!(
            receiver.recv_timeout(Duration::from_millis(100)),
            Err(RecvTimeoutError::Disconnected)
        );
    }
    assert!(closed);
}

#[test]
fn changes_after_a_handle_is_dropped_reach_no_other_receiver() {
    let watched = tempfile::tempdir().unwrap();
    let mut file = tempfile::NamedTempFile::new_in(watched.path()).unwrap();
    let elsewhere = tempfile::tempdir().unwrap();

    let dropped = ManualRecursiveWatcher::new_with_files(vec![text(file.path())]).unwrap();
    let live = NativeRecursiveWatcher::new(&text(elsewhere.path())).unwrap();

    let (owner, receiver) = dropped.into_parts();
    drop(owner);
    drop(receiver);

    touch(&mut file, b"after the drop");
    assert!(matches!(
        live.receiver().recv_timeout(Duration::from_millis(500)),
        Err(RecvTimeoutError::Timeout)
    ));
}

#[test]
fn the_parts_of_a_handle_work_apart() {
    let dir = tempfile::tempdir().unwrap();
    let mut file = tempfile::NamedTempFile::new_in(dir.path()).unwrap();
    let path = text(file.path());

    let watcher = NativeRecursiveWatcher::new_with_filter(&text(dir.path()), vec![path.clone()]).unwrap();
    let (owner, receiver) = watcher.into_parts();

    touch(&mut file, b"seen through the receiver");
    let event = receiver.recv_timeout(Duration::from_secs(10)).unwrap().unwrap();
    assert!(event.paths.contains(&path));
    drop(owner);
}
