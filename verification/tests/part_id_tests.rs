use skyproxy::part_id::{format_part_number, make_block_id};

#[test]
fn part_numbers_are_zero_padded_to_four_digits() {
    assert_eq!(format_part_number(1), b"0001".to_vec());
    assert_eq!(format_part_number(42), b"0042".to_vec());
    assert_eq!(format_part_number(123), b"0123".to_vec());
    assert_eq!(format_part_number(9999), b"9999".to_vec());
}

#[test]
fn block_id_is_upload_id_dash_digits() {
    let upload_id = b"0c6d1ff0-9d4a-4b6e-8f05-2a9e3d6a7f01".to_vec();
    let id = make_block_id(&upload_id, 7);
    assert_eq!(id, b"0c6d1ff0-9d4a-4b6e-8f05-2a9e3d6a7f01-0007".to_vec());
    let id = make_block_id(&upload_id, 9999);
    assert_eq!(id, b"0c6d1ff0-9d4a-4b6e-8f05-2a9e3d6a7f01-9999".to_vec());
}

#[test]
fn block_ids_are_unique_per_part_number() {
    let upload_id = b"upload".to_vec();
    let mut seen: Vec<Vec<u8>> = Vec::new();
    for n in [1, 2, 9, 10, 11, 99, 100, 101, 999, 1000, 1001, 9998, 9999] {
        let id = make_block_id(&upload_id, n);
        assert!(!seen.contains(&id), "duplicate identifier for part {}", n);
        seen.push(id);
    }
}

#[test]
fn lexical_order_of_ids_matches_numeric_order_of_parts() {
    let upload_id = b"upload".to_vec();
    let parts = [1, 2, 9, 10, 42, 99, 100, 500, 999, 1000, 4242, 9998, 9999];
    for w in parts.windows(2) {
        let a = make_block_id(&upload_id, w[0]);
        let b = make_block_id(&upload_id, w[1]);
        assert!(a < b, "part {} should sort before part {}", w[0], w[1]);
    }
}

#[test]
fn sorting_ids_lexically_recovers_numeric_part_order() {
    let upload_id = b"u".to_vec();
    let parts = [500, 9999, 1, 42, 100, 9, 1000];
    let mut ids: Vec<Vec<u8>> = parts.iter().map(|&n| make_block_id(&upload_id, n)).collect();
    ids.sort();
    let mut sorted_parts = parts;
    sorted_parts.sort();
    let expected: Vec<Vec<u8>> =
        sorted_parts.iter().map(|&n| make_block_id(&upload_id, n)).collect();
    assert_eq!(ids, expected);
}
