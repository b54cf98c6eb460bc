//! Index arithmetic shared by the sequence operations: negative indices count
//! from the end of a collection.
use vstd::prelude::*;

verus! {

/// `x` limited to the closed range `[lo, hi]` (with `lo <= hi`).
pub open spec fn clamp_spec(x: int, lo: int, hi: int) -> int {
    if x < lo {
        lo
    } else if x > hi {
        hi
    } else {
        x
    }
}

/// Position at which an insertion lands in a collection of `len` items:
/// `-1` means after the last item, and out-of-range values are capped.
pub open spec fn insert_position(len: int, index: int) -> int {
    if index < 0 {
        clamp_spec(len + index + 1, 0, len)
    } else {
        clamp_spec(index, 0, len)
    }
}

/// Position addressed by `index` in a collection of `len` items: `-1` is the
/// last item. A value that does not fit in a `u32` becomes `u32::MAX`.
pub open spec fn access_position(len: int, index: int) -> int {
    let p = if index < 0 { len + index } else { index };
    if 0 <= p <= u32::MAX {
        p
    } else {
        u32::MAX as int
    }
}

/// The range addressed by `index` and `length`, cut to the collection.
pub open spec fn capped_range(target_len: int, index: int, length: int) -> Option<(u32, u32)> {
    let start = access_position(target_len, index);
    let remaining = if target_len > start { target_len - start } else { 0 };
    let actual = if length < remaining { length } else { remaining };
    if actual == 0 {
        None
    } else {
        Some((start as u32, actual as u32))
    }
}

/// Normalizes an insertion index for a collection of length `len`.
pub fn normalize_index_for_insert(len: u32, index: i64) -> (r: u32)
    ensures
        r as int == insert_position(len as int, index as int),
        r <= len,
{
    let l = len as i64;
    if index < 0 {
        let p: i64 = l + index + 1;
        if p < 0 {
            0
        } else if p > l {
            len
        } else {
            p as u32
        }
    } else if index > l {
        len
    } else {
        index as u32
    }
}

/// Normalizes an access index for a collection of length `len`.
pub fn normalize_index(len: u32, index: i64) -> (r: u32)
    ensures
        r as int == access_position(len as int, index as int),
{
    let p: i64 = if index < 0 { len as i64 + index } else { index };
    if 0 <= p && p <= u32::MAX as i64 {
        p as u32
    } else {
        u32::MAX
    }
}

/// Cuts the range starting at `index_i64` with `length` items to a collection
/// of `target_len` items; `None` when nothing of it remains.
pub fn capped_index_and_length(target_len: u32, index_i64: i64, length: u32) -> (r: Option<(u32, u32)>)
    ensures
        r == capped_range(target_len as int, index_i64 as int, length as int),
        r matches Some((i, n)) ==> n > 0 && i as int + n as int <= target_len as int,
{
    let index = normalize_index(target_len, index_i64);
    let remaining: u32 = if target_len > index { target_len - index } else { 0 };
    let actual_length: u32 = if length < remaining { length } else { remaining };
    if actual_length == 0 {
        None
    } else {
        Some((index, actual_length))
    }
}

} // verus!
