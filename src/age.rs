//! The lunar age calculator: elapsed seconds since a reference new moon
//! reduced to the time since the most recent new moon.
use vstd::arithmetic::div_mod::{
    lemma_add_mod_noop_right, lemma_fundamental_div_mod, lemma_fundamental_div_mod_converse_mod,
    lemma_mod_add_multiples_vanish, lemma_mod_bound, lemma_mul_mod_noop_left,
};
use vstd::prelude::*;

verus! {

/// Nanoseconds in one second.
pub const NANOS_PER_SECOND: u64 = 1_000_000_000;

/// Nanoseconds in one day.
pub const NANOS_PER_DAY: u64 = 86_400 * NANOS_PER_SECOND;

/// Nanoseconds in 10^-11 day. The synodic month and the phase table are
/// given to eleven decimal places of a day, so each is a whole number of
/// nanoseconds.
pub const NANOS_PER_DAY_E11: u64 = 864;

/// The synodic month, 29.53058770576 days, in nanoseconds.
pub const SYNODIC_MONTH_NANOS: u64 = 2_953_058_770_576 * NANOS_PER_DAY_E11;

/// A known new moon (6 January 2000), as seconds since the Unix epoch.
pub const REFERENCE_NEW_MOON: i64 = 947_180_794;

/// The lunar age, in nanoseconds, `elapsed_seconds` after a new moon: the
/// elapsed time reduced into `[0, SYNODIC_MONTH_NANOS)`.
pub open spec fn lunar_age_of(elapsed_seconds: int) -> int {
    (elapsed_seconds * NANOS_PER_SECOND) % (SYNODIC_MONTH_NANOS as int)
}

/// The synodic month rounded up to a whole number of seconds.
pub const SYNODIC_MONTH_SECONDS_CEIL: u64 = 2_551_443;

/// The age is always less than one synodic month.
pub proof fn lemma_age_in_month(elapsed_seconds: int)
    ensures
        0 <= lunar_age_of(elapsed_seconds) < SYNODIC_MONTH_NANOS,
{
    lemma_mod_bound(elapsed_seconds * NANOS_PER_SECOND, SYNODIC_MONTH_NANOS as int);
}

/// Waiting `k` more seconds moves the age `k` seconds further round the
/// month.
pub proof fn lemma_age_shift(elapsed_seconds: int, k: int)
    ensures
        lunar_age_of(elapsed_seconds + k) == (lunar_age_of(elapsed_seconds) + k
            * NANOS_PER_SECOND) % (SYNODIC_MONTH_NANOS as int),
{
    let m = SYNODIC_MONTH_NANOS as int;
    let x = elapsed_seconds * NANOS_PER_SECOND;
    let y = k * NANOS_PER_SECOND;
    assert((elapsed_seconds + k) * NANOS_PER_SECOND == y + x) by (nonlinear_arith)
        requires
            x == elapsed_seconds * NANOS_PER_SECOND,
            y == k * NANOS_PER_SECOND,
    ;
    lemma_add_mod_noop_right(y, x, m);
}

/// The age is periodic in the synodic month: one month later, rounded up to
/// a whole second, the age is the same up to that rounding of 0.222222336
/// seconds, taken round the month.
pub proof fn lemma_age_periodic(elapsed_seconds: int)
    ensures
        lunar_age_of(elapsed_seconds + SYNODIC_MONTH_SECONDS_CEIL) == (lunar_age_of(
            elapsed_seconds,
        ) + 222_222_336) % (SYNODIC_MONTH_NANOS as int),
{
    let m = SYNODIC_MONTH_NANOS as int;
    let s = lunar_age_of(elapsed_seconds) + 222_222_336;
    lemma_age_shift(elapsed_seconds, SYNODIC_MONTH_SECONDS_CEIL as int);
    assert(m == 2_551_442_777_777_664);
    assert(SYNODIC_MONTH_SECONDS_CEIL * NANOS_PER_SECOND == 2_551_443_000_000_000);
    lemma_mod_add_multiples_vanish(s, m);
}

/// `(x * NANOS_PER_SECOND) % SYNODIC_MONTH_NANOS` for `x >= 0`, computed
/// without overflow by reducing `x` first.
fn scaled_remainder(x: u64) -> (r: u64)
    ensures
        r as int == (x as int * NANOS_PER_SECOND) % (SYNODIC_MONTH_NANOS as int),
        r < SYNODIC_MONTH_NANOS,
{
    let m: u64 = SYNODIC_MONTH_NANOS;
    let small: u64 = x % m;
    let wide: u128 = small as u128 * NANOS_PER_SECOND as u128;
    let r: u64 = (wide % m as u128) as u64;
    proof {
        lemma_mul_mod_noop_left(x as int, NANOS_PER_SECOND as int, m as int);
        lemma_mod_bound(small as int * NANOS_PER_SECOND, m as int);
    }
    r
}

/// The lunar age, in nanoseconds since the most recent new moon, of a moment
/// `elapsed_seconds` after a new moon (before one, where negative).
///
/// As with a floating remainder, the elapsed time is first reduced towards
/// zero, keeping its sign, and a negative remainder is then moved up by one
/// month.
pub fn calculate_lunar_age(elapsed_seconds: i64) -> (age_nanos: u64)
    ensures
        age_nanos as int == lunar_age_of(elapsed_seconds as int),
        age_nanos < SYNODIC_MONTH_NANOS,
{
    let m: u64 = SYNODIC_MONTH_NANOS;
    let magnitude: u64 = if elapsed_seconds < 0 {
        (-(elapsed_seconds as i128)) as u64
    } else {
        elapsed_seconds as u64
    };
    let rem: u64 = scaled_remainder(magnitude);
    // the remainder truncated towards zero carries the sign of the dividend
    let truncated: i128 = if elapsed_seconds < 0 {
        -(rem as i128)
    } else {
        rem as i128
    };
    let corrected: i128 = if truncated < 0 {
        truncated + m as i128
    } else {
        truncated
    };
    proof {
        let x = magnitude as int * NANOS_PER_SECOND;
        let q = x / (m as int);
        lemma_fundamental_div_mod(x, m as int);
        if elapsed_seconds < 0 {
            assert(elapsed_seconds as int * NANOS_PER_SECOND == -x);
            if rem == 0 {
                assert(-x == (-q) * (m as int) + 0) by (nonlinear_arith)
                    requires x == (m as int) * q + 0;
                lemma_fundamental_div_mod_converse_mod(-x, m as int, -q, 0);
            } else {
                assert(-x == (-q - 1) * (m as int) + (m - rem)) by (nonlinear_arith)
                    requires x == (m as int) * q + rem;
                lemma_fundamental_div_mod_converse_mod(-x, m as int, -q - 1, m - rem);
            }
        }
    }
    corrected as u64
}

} // verus!
