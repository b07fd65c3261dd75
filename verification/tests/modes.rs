use recursive_file_watcher::mode::WatcherMode;

#[test]
fn test_watcher_mode_parsing() {
    assert_eq!(WatcherMode::from_str("manual"), Some(WatcherMode::Manual));
    assert_eq!(WatcherMode::from_str("MANUAL"), Some(WatcherMode::Manual));
    assert_eq!(WatcherMode::from_str("native"), Some(WatcherMode::Native));
    assert_eq!(WatcherMode::from_str("NATIVE"), Some(WatcherMode::Native));
    assert_eq!(WatcherMode::from_str("invalid"), None);
}

#[test]
fn parses_the_filtered_modes() {
    assert_eq!(WatcherMode::from_str("manual-filtered"), Some(WatcherMode::ManualFiltered));
    assert_eq!(WatcherMode::from_str("native-filtered"), Some(WatcherMode::NativeFiltered));
    assert_eq!(WatcherMode::from_str("Native-Filtered"), Some(WatcherMode::NativeFiltered));
}

#[test]
fn rejects_names_that_only_resemble_a_mode() {
    assert_eq!(WatcherMode::from_str(""), None);
    assert_eq!(WatcherMode::from_str(" manual"), None);
    assert_eq!(WatcherMode::from_str("manual "), None);
    assert_eq!(WatcherMode::from_str("manual_filtered"), None);
    assert_eq!(WatcherMode::from_str("compare"), None);
}

#[test]
fn lower_case_reader_does_not_fold_case() {
    assert_eq!(WatcherMode::from_lowercase("manual"), Some(WatcherMode::Manual));
    assert_eq!(WatcherMode::from_lowercase("native"), Some(WatcherMode::Native));
    assert_eq!(WatcherMode::from_lowercase("manual-filtered"), Some(WatcherMode::ManualFiltered));
    assert_eq!(WatcherMode::from_lowercase("native-filtered"), Some(WatcherMode::NativeFiltered));
    assert_eq!(WatcherMode::from_lowercase("MANUAL"), None);
    assert_eq!(WatcherMode::from_lowercase("Native"), None);
}

#[test]
fn display_names() {
    assert_eq!(WatcherMode::Manual.display_name(), "Manual Recursive");
    assert_eq!(WatcherMode::Native.display_name(), "Native Recursive");
    assert_eq!(WatcherMode::ManualFiltered.display_name(), "Manual Filtered");
    assert_eq!(WatcherMode::NativeFiltered.display_name(), "Native Filtered");
}

#[test]
fn the_two_filtered_modes_are_filtered() {
    assert!(!WatcherMode::Manual.is_filtered());
    assert!(!WatcherMode::Native.is_filtered());
    assert!(WatcherMode::ManualFiltered.is_filtered());
    assert!(WatcherMode::NativeFiltered.is_filtered());
}
