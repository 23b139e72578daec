use vstd::prelude::*;

verus! {

/// Addition on `u64` that caps at `u64::MAX` instead of overflowing.
pub open spec fn sat_add(a: u64, b: u64) -> u64 {
    if a + b > u64::MAX {
        u64::MAX
    } else {
        (a + b) as u64
    }
}

/// Elapsed time between `start` and `now`, capped at `i64::MAX` above and
/// clamped to zero below: the engine never works with a negative duration.
pub open spec fn elapsed(now: i64, start: i64) -> int {
    if now - start < 0 {
        0
    } else if now - start > i64::MAX {
        i64::MAX as int
    } else {
        now - start
    }
}

/// Computes `elapsed(now, start)` with saturating machine arithmetic.
pub fn elapsed_time(now: i64, start: i64) -> (r: i64)
    ensures
        r == elapsed(now, start),
        r >= 0,
{
    match now.checked_sub(start) {
        Some(d) => {
            if d < 0 {
                0
            } else {
                d
            }
        },
        None => {
            if start < 0 {
                i64::MAX
            } else {
                0
            }
        },
    }
}

/// Integer division by a positive constant never increases a non-negative value.
pub proof fn lemma_div_le_self(x: int, d: int)
    requires
        x >= 0,
        d >= 1,
    ensures
        0 <= x / d <= x,
{
    vstd::arithmetic::div_mod::lemma_div_nonincreasing(x, d);
    vstd::arithmetic::div_mod::lemma_div_pos_is_pos(x, d);
}

/// Integer division by a positive constant is monotone.
pub proof fn lemma_div_monotone(x: int, y: int, d: int)
    requires
        x <= y,
        d >= 1,
    ensures
        x / d <= y / d,
{
    vstd::arithmetic::div_mod::lemma_div_is_ordered(x, y, d);
}

/// Taking a tenth away leaves a quantity that is still monotone: if `x <= y`
/// then `x - x / 10 <= y - y / 10`.
pub proof fn lemma_sub_tenth_monotone(x: int, y: int)
    requires
        0 <= x <= y,
    ensures
        x - x / 10 <= y - y / 10,
{
    vstd::arithmetic::div_mod::lemma_fundamental_div_mod(x, 10);
    vstd::arithmetic::div_mod::lemma_fundamental_div_mod(y, 10);
    vstd::arithmetic::div_mod::lemma_mod_bound(x, 10);
    vstd::arithmetic::div_mod::lemma_mod_bound(y, 10);
    lemma_div_monotone(x, y, 10);
    if x / 10 == y / 10 {
        assert(x % 10 <= y % 10);
    } else {
        assert(x / 10 + 1 <= y / 10);
    }
}

} // verus!
