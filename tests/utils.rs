use yex::utils::{capped_index_and_length, normalize_index, normalize_index_for_insert};

#[test]
fn test_capped_index_and_length() {
    assert_eq!(capped_index_and_length(10, 5, 3), Some((5, 3)));
    assert_eq!(capped_index_and_length(7, 5, 3), Some((5, 2)));
    assert_eq!(capped_index_and_length(1, 5, 3), None);
    assert_eq!(capped_index_and_length(1, -1, 3), Some((0, 1)));
}

#[test]
fn capped_range_of_zero_length_is_none() {
    assert_eq!(capped_index_and_length(10, 2, 0), None);
    assert_eq!(capped_index_and_length(0, 0, 5), None);
}

#[test]
fn capped_range_from_far_negative_index_is_none() {
    assert_eq!(capped_index_and_length(3, -10, 2), None);
}

#[test]
fn insert_index_counts_from_the_end() {
    assert_eq!(normalize_index_for_insert(5, -1), 5);
    assert_eq!(normalize_index_for_insert(5, -2), 4);
    assert_eq!(normalize_index_for_insert(5, -100), 0);
}

#[test]
fn insert_index_is_capped_to_length() {
    assert_eq!(normalize_index_for_insert(5, 2), 2);
    assert_eq!(normalize_index_for_insert(5, 9), 5);
    assert_eq!(normalize_index_for_insert(0, 0), 0);
}

#[test]
fn access_index_counts_from_the_end() {
    assert_eq!(normalize_index(5, -1), 4);
    assert_eq!(normalize_index(5, 3), 3);
}

#[test]
fn access_index_out_of_u32_is_max() {
    assert_eq!(normalize_index(5, -6), u32::MAX);
    assert_eq!(normalize_index(5, i64::MAX), u32::MAX);
    assert_eq!(normalize_index(5, u32::MAX as i64), u32::MAX);
}
