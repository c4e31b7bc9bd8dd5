//! Keys: one number for each pair of coordinates.
//!
//! A key holds the row in its upper 32 bits and the column in its lower 32
//! bits, each counted from the least coordinate, so that no two pairs share a
//! key and a key gives its pair back.

use vstd::prelude::*;

verus! {

/// What has to be added to a coordinate to count it from the least one.
pub const COORDINATE_OFFSET: i64 = 0x8000_0000;

/// The number of values a coordinate can take.
pub const COORDINATE_SPAN: u64 = 0x1_0000_0000;

/// Whether `x` is a coordinate, on a grid or off it.
pub open spec fn is_coordinate(x: int) -> bool {
    i32::MIN <= x <= i32::MAX
}

/// The number that stands for the pair `(row, col)`.
pub open spec fn coordinate_key(row: int, col: int) -> int {
    (row + COORDINATE_OFFSET) * COORDINATE_SPAN + (col + COORDINATE_OFFSET)
}

/// The row of the pair that `key` stands for.
pub open spec fn key_row(key: u64) -> int {
    key / COORDINATE_SPAN - COORDINATE_OFFSET
}

/// The column of the pair that `key` stands for.
pub open spec fn key_col(key: u64) -> int {
    key % COORDINATE_SPAN - COORDINATE_OFFSET
}

/// The key of a pair of coordinates fits its 64 bits and gives the pair back.
pub proof fn lemma_key_of_pair(row: int, col: int)
    requires
        is_coordinate(row),
        is_coordinate(col),
    ensures
        0 <= coordinate_key(row, col) <= u64::MAX,
        key_row(coordinate_key(row, col) as u64) == row,
        key_col(coordinate_key(row, col) as u64) == col,
{
}

/// Every key stands for a pair of coordinates, and is the key of that pair.
pub proof fn lemma_pair_of_key(key: u64)
    ensures
        is_coordinate(key_row(key)),
        is_coordinate(key_col(key)),
        coordinate_key(key_row(key), key_col(key)) == key,
{
}

/// Two pairs of coordinates with one key are one pair.
pub proof fn lemma_coordinate_key_injective(row1: int, col1: int, row2: int, col2: int)
    requires
        is_coordinate(row1),
        is_coordinate(col1),
        is_coordinate(row2),
        is_coordinate(col2),
        coordinate_key(row1, col1) == coordinate_key(row2, col2),
    ensures
        row1 == row2,
        col1 == col2,
{
}

/// Computes the key of `(row, col)`.
pub fn key_of(row: i32, col: i32) -> (key: u64)
    ensures
        key == coordinate_key(row as int, col as int),
{
    let high: u64 = (row as i64 + COORDINATE_OFFSET) as u64;
    let low: u64 = (col as i64 + COORDINATE_OFFSET) as u64;
    high * COORDINATE_SPAN + low
}

} // verus!
