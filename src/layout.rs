//! Checks that keep malformed payloads away from the parts of yrs's decoders
//! that trust them.
//!
//! - yrs's v2 decoder first reads an optional feature byte, then nine
//!   length-prefixed columns, the sixth of which holds a length-prefixed
//!   UTF-8 text; it reads these lengths without bounds checks and takes the
//!   text as UTF-8 unchecked.
//! - A v1 state vector starts with a count by which yrs sizes a map.
//! - An awareness update is a count (again sizing a map), then per client an
//!   id, a clock and a length-prefixed JSON text, taken as UTF-8 unchecked.
//!
//! A check may refuse a payload that yrs would refuse anyway; it never
//! refuses one that an encoder of yrs writes.
use vstd::prelude::*;
use vstd::utf8::*;

use vstd::slice::{slice_subrange, slice_to_vec};

use crate::native::{lead_var, rest, utf8_to_string};
use crate::sync::pow128;

verus! {

/// The LEB128 value at `pos` and the position after it, when it ends inside
/// `s` within `budget` bytes.
pub open spec fn var_within(s: Seq<u8>, pos: nat, budget: nat) -> Option<(nat, nat)> {
    if pos < s.len() {
        match lead_var(rest(s, pos as int)) {
            Some((n, l)) => if l <= budget { Some((n, pos + l)) } else { None },
            None => None,
        }
    } else {
        None
    }
}

/// The text column (the contents of the sixth column) can be read: empty,
/// or a length-prefixed buffer that either overruns the column (an error)
/// or holds valid UTF-8.
pub open spec fn text_column_safe(c: Seq<u8>) -> bool {
    c.len() == 0 || (var_within(c, 0, 10) matches Some((m, q)) && m <= u32::MAX
        && (q + m > c.len() || valid_utf8(c.subrange(q as int, (q + m) as int))))
}

/// The last `k` of the nine columns, starting at `pos`, can be read: each
/// length ends inside the payload within ten bytes and is at most
/// `u32::MAX`; reading stops (with an error) at the end of the payload or at
/// a column that overruns it.
pub open spec fn columns_safe(s: Seq<u8>, pos: nat, k: nat) -> bool
    decreases k,
{
    if k == 0 || pos >= s.len() {
        true
    } else {
        match var_within(s, pos, 10) {
            Some((n, p)) => n <= u32::MAX && (p + n > s.len() || (
                (k == 4 ==> text_column_safe(s.subrange(p as int, (p + n) as int)))
                && columns_safe(s, p + n, (k - 1) as nat))),
            None => false,
        }
    }
}

/// yrs's v2 decoder reads the columns of `s` without panicking.
pub open spec fn v2_layout_safe(s: Seq<u8>) -> bool {
    columns_safe(s, if s.len() > 0 { 1 } else { 0 }, 9)
}

/// A LEB128 value read from the front is below `128` to the power of its length.
pub proof fn lemma_lead_var_bound(s: Seq<u8>)
    ensures
        lead_var(s) matches Some((n, l)) ==> n < pow128(l) && 1 <= l <= s.len(),
    decreases s.len(),
{
    if s.len() > 0 && s[0] >= 128 {
        lemma_lead_var_bound(s.drop_first());
        if let Some((v, l)) = lead_var(s.drop_first()) {
            assert(pow128(l + 1) == 128 * pow128(l));
            assert((s[0] - 128) + 128 * v < 128 * pow128(l)) by (nonlinear_arith)
                requires s[0] - 128 < 128, v < pow128(l), v + 1 <= pow128(l);
        }
    } else if s.len() > 0 {
        assert(pow128(1) == 128) by {
            reveal_with_fuel(pow128, 2);
        }
    }
}

proof fn lemma_pow128_mono(a: nat, b: nat)
    requires
        a <= b,
    ensures
        pow128(a) <= pow128(b),
    decreases b,
{
    if a < b {
        lemma_pow128_mono(a, (b - 1) as nat);
        assert(pow128(b) == 128 * pow128((b - 1) as nat));
    }
}

/// Reads the LEB128 value at `pos`, if it ends inside `b` within `budget` bytes.
pub fn leading_var(b: &[u8], pos: usize, budget: usize) -> (r: Option<(u128, usize)>)
    requires
        pos <= b@.len(),
        1 <= budget <= 11,
    ensures
        var_within(b@, pos as nat, budget as nat) matches Some((n, p)) ==> r matches Some((v, q)) && v as nat == n && q as nat == p,
        var_within(b@, pos as nat, budget as nat) is None ==> r is None,
        r matches Some((_, q)) ==> q <= b@.len(),
    decreases budget,
{
    let s = Ghost(rest(b@, pos as int));
    proof {
        lemma_lead_var_bound(s@);
    }
    if pos >= b.len() {
        return None;
    }
    let byte = b[pos];
    assert(s@[0] == byte);
    if byte < 128 {
        return Some((byte as u128, pos + 1));
    }
    assert(s@.drop_first() =~= rest(b@, pos + 1));
    if budget == 1 {
        proof {
            lemma_lead_var_bound(s@.drop_first());
        }
        return None;
    }
    match leading_var(b, pos + 1, budget - 1) {
        Some((v, q)) => {
            proof {
                let (n, l) = lead_var(s@.drop_first())->0;
                lemma_lead_var_bound(s@.drop_first());
                lemma_pow128_mono(l, 10);
                reveal_with_fuel(pow128, 11);
                assert(pow128(10) == 1180591620717411303424);
            }
            assert(v < 1180591620717411303424u128);
            Some(((byte - 128) as u128 + 128 * v, q))
        },
        None => {
            proof {
                lemma_lead_var_bound(s@.drop_first());
            }
            None
        },
    }
}

/// Whether the text column `c` can be read.
fn text_column_ok(c: &[u8]) -> (r: bool)
    ensures
        r == text_column_safe(c@),
{
    if c.len() == 0 {
        return true;
    }
    match leading_var(c, 0, 10) {
        None => false,
        Some((m, q)) => {
            if m > u32::MAX as u128 {
                false
            } else if m > (c.len() - q) as u128 {
                true
            } else {
                let text = slice_subrange(c, q, q + m as usize);
                utf8_to_string(slice_to_vec(text)).is_some()
            }
        },
    }
}

/// Whether the last `k` columns, from `pos` on, can be read.
fn columns_ok(b: &[u8], pos: usize, k: usize) -> (r: bool)
    requires
        pos <= b@.len(),
        k <= 9,
    ensures
        r == columns_safe(b@, pos as nat, k as nat),
    decreases k,
{
    if k == 0 || pos >= b.len() {
        return true;
    }
    match leading_var(b, pos, 10) {
        None => false,
        Some((n, p)) => {
            if n > u32::MAX as u128 {
                return false;
            }
            if n > (b.len() - p) as u128 {
                return true;
            }
            let end = p + n as usize;
            if k == 4 && !text_column_ok(slice_subrange(b, p, end)) {
                return false;
            }
            columns_ok(b, end, k - 1)
        },
    }
}

/// Whether yrs's v2 decoder reads the columns of `b` without panicking.
pub fn v2_layout_ok(b: &[u8]) -> (r: bool)
    ensures
        r == v2_layout_safe(b@),
{
    columns_ok(b, if b.len() > 0 { 1 } else { 0 }, 9)
}

/// The count at the start of `s`, as yrs reads it (at most eleven bytes), is
/// missing or at most the length of `s`.
pub open spec fn count_safe(s: Seq<u8>) -> bool {
    match var_within(s, 0, 11) {
        Some((n, _)) => n <= s.len(),
        None => true,
    }
}

/// Whether yrs's v1 state-vector decoder sizes its map by at most the length
/// of `b`.
pub fn state_vector_v1_ok(b: &[u8]) -> (r: bool)
    ensures
        r == count_safe(b@),
{
    match leading_var(b, 0, 11) {
        Some((n, _)) => n <= b.len() as u128,
        None => true,
    }
}

/// The length of the text of the awareness entry at `pos`, after its
/// client id and clock, and where the text starts; `None` when one of the
/// three values is missing.
pub open spec fn entry_text_at(s: Seq<u8>, pos: nat) -> Option<(nat, nat)> {
    match var_within(s, pos, 11) {
        None => None,
        Some((_, p1)) => match var_within(s, p1, 11) {
            None => None,
            Some((_, p2)) => var_within(s, p2, 11),
        },
    }
}

/// The next `k` awareness entries from `pos` are read without trusting
/// anything: reading stops at the first value that is missing, and every
/// text that is read in full is valid UTF-8.
pub open spec fn entries_safe(s: Seq<u8>, pos: nat, k: nat) -> bool
    decreases k,
{
    if k == 0 {
        true
    } else {
        match entry_text_at(s, pos) {
            None => true,
            Some((m, p3)) => m <= u32::MAX && (p3 + m > s.len() || (
                valid_utf8(s.subrange(p3 as int, (p3 + m) as int))
                && entries_safe(s, p3 + m, (k - 1) as nat))),
        }
    }
}

/// yrs's awareness-update decoder reads `s` safely.
pub open spec fn awareness_update_safe(s: Seq<u8>) -> bool {
    match var_within(s, 0, 11) {
        Some((count, p)) => count <= s.len() && entries_safe(s, p, count),
        None => true,
    }
}

/// Reads the client id, clock and text length of the entry at `pos`.
fn entry_text(b: &[u8], pos: usize) -> (r: Option<(u128, usize)>)
    requires
        pos <= b@.len(),
    ensures
        entry_text_at(b@, pos as nat) matches Some((m, p)) ==> r matches Some((v, q)) && v as nat == m && q as nat == p,
        entry_text_at(b@, pos as nat) is None ==> r is None,
        r matches Some((_, q)) ==> q <= b@.len(),
{
    let p1 = match leading_var(b, pos, 11) {
        Some((_, q)) => q,
        None => return None,
    };
    let p2 = match leading_var(b, p1, 11) {
        Some((_, q)) => q,
        None => return None,
    };
    leading_var(b, p2, 11)
}

/// Whether yrs's awareness-update decoder reads `b` safely.
pub fn awareness_update_ok(b: &[u8]) -> (r: bool)
    ensures
        r == awareness_update_safe(b@),
{
    let (count, start) = match leading_var(b, 0, 11) {
        Some(x) => x,
        None => return true,
    };
    if count > b.len() as u128 {
        return false;
    }
    let k0 = count as usize;
    let mut pos = start;
    let mut k = k0;
    while k > 0
        invariant
            pos <= b@.len(),
            entries_safe(b@, start as nat, k0 as nat) == entries_safe(b@, pos as nat, k as nat),
            awareness_update_safe(b@) == entries_safe(b@, start as nat, k0 as nat),
        decreases k,
    {
        let (m, p3) = match entry_text(b, pos) {
            Some(x) => x,
            None => return true,
        };
        if m > u32::MAX as u128 {
            return false;
        }
        if m > (b.len() - p3) as u128 {
            return true;
        }
        let end = p3 + m as usize;
        let text = slice_subrange(b, p3, end);
        if utf8_to_string(slice_to_vec(text)).is_none() {
            return false;
        }
        pos = end;
        k = k - 1;
    }
    true
}

} // verus!
