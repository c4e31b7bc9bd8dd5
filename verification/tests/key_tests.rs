use explorers_and_settlers::key::key_of;
use explorers_and_settlers::key::COORDINATE_OFFSET;
use explorers_and_settlers::key::COORDINATE_SPAN;

#[test]
fn key_of_origin() {
    assert_eq!(key_of(0, 0), 9223372039002259456);
}

#[test]
fn key_of_small_pairs() {
    assert_eq!(key_of(0, 1), 9223372039002259457);
    assert_eq!(key_of(1, 0), 9223372043297226752);
    assert_eq!(key_of(5, 7), 5 * 4294967296 + 7 + 9223372039002259456);
}

#[test]
fn key_of_extremes() {
    assert_eq!(key_of(i32::MIN, i32::MIN), 0);
    assert_eq!(key_of(i32::MIN, i32::MAX), 4294967295);
    assert_eq!(key_of(i32::MAX, i32::MAX), u64::MAX);
    assert_eq!(key_of(-1, -1), 9223372034707292159);
}

#[test]
fn key_constants() {
    assert_eq!(COORDINATE_OFFSET, 2147483648);
    assert_eq!(COORDINATE_SPAN, 4294967296);
}

#[test]
fn pairs_with_the_same_digits_have_different_keys() {
    assert_ne!(key_of(1, 23), key_of(12, 3));
    assert_ne!(key_of(11, 1), key_of(1, 11));
    assert_ne!(key_of(0, 10), key_of(1, 0));
}

#[test]
fn keys_are_distinct_on_a_block() {
    let mut keys: Vec<u64> = Vec::new();
    for row in -20..20 {
        for col in -20..20 {
            keys.push(key_of(row, col));
        }
    }
    let count = keys.len();
    keys.sort();
    keys.dedup();
    assert_eq!(keys.len(), count);
}

#[test]
fn key_gives_its_pair_back() {
    for &(row, col) in &[(0, 0), (3, 9), (-7, 12), (i32::MAX, i32::MIN), (i32::MIN, i32::MAX)] {
        let key = key_of(row, col);
        assert_eq!((key / COORDINATE_SPAN) as i64 - COORDINATE_OFFSET, row as i64);
        assert_eq!((key % COORDINATE_SPAN) as i64 - COORDINATE_OFFSET, col as i64);
    }
}
