use recursive_file_watcher::select::get_filtered_files;

fn numbered(count: usize) -> Vec<String> {
    (0..count).map(|i| format!("file{}.txt", i)).collect()
}

#[test]
fn test_get_filtered_files() {
    let files: Vec<String> = (0..100).map(|i| format!("file{}.txt", i)).collect();

    let filtered = get_filtered_files(&files, 10);
    assert_eq!(filtered.len(), 10); // Should get every 10th file

    let filtered = get_filtered_files(&files, 5);
    assert_eq!(filtered.len(), 20); // Should get every 5th file
}

#[test]
fn selects_positions_zero_k_two_k() {
    let files = numbered(10);
    let filtered = get_filtered_files(&files, 3);
    assert_eq!(filtered, vec!["file0.txt", "file3.txt", "file6.txt", "file9.txt"]);
}

#[test]
fn ratio_one_keeps_every_file_in_order() {
    let files = numbered(7);
    assert_eq!(get_filtered_files(&files, 1), files);
}

#[test]
fn count_rounds_up() {
    assert_eq!(get_filtered_files(&numbered(101), 10).len(), 11);
    assert_eq!(get_filtered_files(&numbered(99), 10).len(), 10);
    assert_eq!(get_filtered_files(&numbered(91), 10).len(), 10);
    assert_eq!(get_filtered_files(&numbered(90), 10).len(), 9);
    assert_eq!(get_filtered_files(&numbered(1), 10).len(), 1);
}

#[test]
fn ratio_beyond_the_length_keeps_the_first_file() {
    let files = numbered(4);
    assert_eq!(get_filtered_files(&files, 4), vec!["file0.txt"]);
    assert_eq!(get_filtered_files(&files, 1000), vec!["file0.txt"]);
    assert_eq!(get_filtered_files(&files, usize::MAX), vec!["file0.txt"]);
}

#[test]
fn empty_list_gives_empty_selection() {
    let files: Vec<String> = Vec::new();
    assert!(get_filtered_files(&files, 1).is_empty());
    assert!(get_filtered_files(&files, 10).is_empty());
}
