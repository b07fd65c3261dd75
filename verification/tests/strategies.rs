use std::io::Write;
use std::sync::mpsc::RecvTimeoutError;
use std::time::Duration;

use recursive_file_watcher::mode::WatcherMode;
use recursive_file_watcher::strategy::ActiveWatch;
use recursive_file_watcher::tree::{DirEntry, DirTree};

struct Fixture {
    dir: tempfile::TempDir,
    files: Vec<tempfile::NamedTempFile>,
}

fn fixture(count: usize) -> Fixture {
    let dir = tempfile::tempdir().unwrap();
    let files = (0..count)
        .map(|i| {
            tempfile::Builder::new().prefix(&format!("f{:02}-", i)).tempfile_in(dir.path()).unwrap()
        })
        .collect();
    Fixture { dir, files }
}

fn snapshot(fixture: &Fixture) -> DirTree {
    DirTree {
        root: fixture.dir.path().to_str().unwrap().to_string(),
        listing: Some(
            fixture
                .files
                .iter()
                .map(|f| DirEntry::File {
                    name: f.path().file_name().unwrap().to_str().unwrap().to_string(),
                })
                .collect(),
        ),
    }
}

#[test]
fn manual_mode_reports_every_file() {
    let fixture = fixture(12);
    let watch = ActiveWatch::start(WatcherMode::Manual, &snapshot(&fixture), 10).unwrap();
    assert_eq!(watch.watched_count(), 12);
    assert!(watch.setup_time() < Duration::from_secs(20));
}

#[test]
fn manual_filtered_mode_reports_every_tenth_file() {
    let fixture = fixture(12);
    let watch = ActiveWatch::start(WatcherMode::ManualFiltered, &snapshot(&fixture), 10).unwrap();
    assert_eq!(watch.watched_count(), 2);
    let watch = ActiveWatch::start(WatcherMode::ManualFiltered, &snapshot(&fixture), 5).unwrap();
    assert_eq!(watch.watched_count(), 3);
}

#[test]
fn native_mode_reports_the_number_of_files_in_the_tree() {
    let fixture = fixture(3);
    let watch = ActiveWatch::start(WatcherMode::Native, &snapshot(&fixture), 10).unwrap();
    assert_eq!(watch.watched_count(), 3);
}

#[test]
fn native_filtered_mode_reports_the_size_of_the_filter_set() {
    let fixture = fixture(12);
    let mut tree = snapshot(&fixture);
    let watch = ActiveWatch::start(WatcherMode::NativeFiltered, &tree, 10).unwrap();
    assert_eq!(watch.watched_count(), 2);

    if let Some(listing) = tree.listing.as_mut() {
        listing[0] = DirEntry::File { name: "listed-but-gone".to_string() };
    }
    let watch = ActiveWatch::start(WatcherMode::NativeFiltered, &tree, 10).unwrap();
    assert_eq!(watch.watched_count(), 1);
}

#[test]
fn manual_filtered_mode_watches_the_selected_files_only() {
    let mut fixture = fixture(3);
    let watch = ActiveWatch::start(WatcherMode::ManualFiltered, &snapshot(&fixture), 2).unwrap();
    assert_eq!(watch.watched_count(), 2);
    let selected = fixture.files[2].path().to_str().unwrap().to_string();

    fixture.files[1].as_file_mut().write_all(b"left alone").unwrap();
    fixture.files[1].as_file_mut().sync_all().unwrap();
    assert!(matches!(
        watch.receiver().recv_timeout(Duration::from_millis(500)),
        Err(RecvTimeoutError::Timeout)
    ));

    fixture.files[2].as_file_mut().write_all(b"watched").unwrap();
    fixture.files[2].as_file_mut().sync_all().unwrap();
    let event = watch.receiver().recv_timeout(Duration::from_secs(10)).unwrap().unwrap();
    assert!(event.paths.contains(&selected));
}

#[test]
fn a_missing_file_in_the_tree_fails_the_manual_modes() {
    let tree = DirTree {
        root: "/no/such/root".to_string(),
        listing: Some(vec![DirEntry::File { name: "ghost".to_string() }]),
    };
    assert!(ActiveWatch::start(WatcherMode::Manual, &tree, 10).is_err());
    assert!(ActiveWatch::start(WatcherMode::ManualFiltered, &tree, 10).is_err());
    assert!(ActiveWatch::start(WatcherMode::Native, &tree, 10).is_err());
    assert!(ActiveWatch::start(WatcherMode::NativeFiltered, &tree, 10).is_err());
}

#[test]
fn the_parts_of_an_active_watch_keep_delivering() {
    let mut fixture = fixture(1);
    let path = fixture.files[0].path().to_str().unwrap().to_string();
    let watch = ActiveWatch::start(WatcherMode::Native, &snapshot(&fixture), 10).unwrap();
    let (owner, receiver) = watch.into_parts();

    fixture.files[0].as_file_mut().write_all(b"changed").unwrap();
    fixture.files[0].as_file_mut().sync_all().unwrap();
    let event = receiver.recv_timeout(Duration::from_secs(10)).unwrap().unwrap();
    assert!(event.paths.contains(&path));
    drop(owner);
}

#[test]
fn test_benchmark_with_temp_dir() {
    let test_dir = tempfile::Builder::new().prefix("test_benchmark_dir").tempdir().unwrap();
    let plain = |name: String, dir: &std::path::Path| {
        tempfile::Builder::new().prefix(&name).rand_bytes(0).tempfile_in(dir).unwrap()
    };

    let files: Vec<_> = (0..5).map(|i| plain(format!("file{}.txt", i), test_dir.path())).collect();

    let sub_dir =
        tempfile::Builder::new().prefix("subdir").rand_bytes(0).tempdir_in(test_dir.path()).unwrap();
    let subfiles: Vec<_> =
        (0..3).map(|i| plain(format!("subfile{}.txt", i), sub_dir.path())).collect();

    let mut listing: Vec<DirEntry> =
        (0..5).map(|i| DirEntry::File { name: format!("file{}.txt", i) }).collect();
    listing.push(DirEntry::Directory {
        name: "subdir".to_string(),
        listing: Some((0..3).map(|i| DirEntry::File { name: format!("subfile{}.txt", i) }).collect()),
    });
    let tree = DirTree { root: test_dir.path().to_str().unwrap().to_string(), listing: Some(listing) };

    assert!(ActiveWatch::start(WatcherMode::Manual, &tree, 10).is_ok());
    assert!(ActiveWatch::start(WatcherMode::Native, &tree, 10).is_ok());
    assert!(ActiveWatch::start(WatcherMode::ManualFiltered, &tree, 10).is_ok());
    assert!(ActiveWatch::start(WatcherMode::NativeFiltered, &tree, 10).is_ok());

    assert_eq!(ActiveWatch::start(WatcherMode::Manual, &tree, 10).unwrap().watched_count(), 8);
    assert_eq!(files.len() + subfiles.len(), 8);
}
