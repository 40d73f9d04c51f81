use re2line::explore::{threshold_regions, window_counts};

#[test]
fn windows_count_desired_outcomes() {
    let values = vec![true, true, false, true, false, false, true, true, true, false];
    assert_eq!(window_counts(&values, 3), vec![2, 2, 1, 1, 1, 2, 3]);
    // fewer values than a window: one window over all of them
    assert_eq!(window_counts(&[true, false].to_vec(), 5), vec![1]);
    assert_eq!(window_counts(&Vec::new(), 5), vec![0]);
}

#[test]
fn meeting_windows_merge_into_regions() {
    let values = vec![true, true, false, true, false, false, true, true, true, false];
    let counts = window_counts(&values, 3);
    let meets: Vec<bool> = counts.iter().map(|c| *c >= 2).collect();
    assert_eq!(threshold_regions(values.len(), 3, &meets), vec![(0, 4), (5, 9)]);
    assert!(threshold_regions(values.len(), 3, &vec![false; 7]).is_empty());
    assert_eq!(threshold_regions(values.len(), 3, &vec![true; 7]), vec![(0, 9)]);
}
