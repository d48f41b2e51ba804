//! Instants as microseconds since the Unix epoch (the precision the database
//! keeps), and the arithmetic the handlers do on them.
use vstd::prelude::*;

verus! {

pub open spec fn fits_i64(x: int) -> bool {
    i64::MIN <= x && x <= i64::MAX
}

/// `t` moved by `n` units of `unit` microseconds.
pub open spec fn shifted(t: i64, n: i64, unit: int) -> int {
    t + n * unit
}

/// `t + Duration::seconds(n)`.
pub fn add_seconds(t: i64, n: i64) -> (r: i64)
    requires
        fits_i64(n * 1_000_000),
        fits_i64(shifted(t, n, 1_000_000)),
    ensures
        r == shifted(t, n, 1_000_000),
{
    t + n * 1_000_000
}

/// `t + Duration::minutes(n)`.
pub fn add_minutes(t: i64, n: i64) -> (r: i64)
    requires
        fits_i64(n * 60_000_000),
        fits_i64(shifted(t, n, 60_000_000)),
    ensures
        r == shifted(t, n, 60_000_000),
{
    t + n * 60_000_000
}

/// `t + Duration::hours(n)`.
pub fn add_hours(t: i64, n: i64) -> (r: i64)
    requires
        fits_i64(n * 3_600_000_000),
        fits_i64(shifted(t, n, 3_600_000_000)),
    ensures
        r == shifted(t, n, 3_600_000_000),
{
    t + n * 3_600_000_000
}

/// `a / b` rounded toward zero, as Rust's `/` on integers does.
pub open spec fn div_toward_zero(a: int, b: int) -> int {
    if a >= 0 {
        a / b
    } else {
        -((-a) / b)
    }
}

/// The whole minutes from `earlier` to `later`, rounded toward zero
/// (`(later - earlier).num_minutes()`).
pub fn whole_minutes_between(later: i64, earlier: i64) -> (r: i64)
    requires
        fits_i64(later - earlier),
    ensures
        r == div_toward_zero(later - earlier, 60_000_000),
{
    let d = later - earlier;
    if d >= 0 {
        d / 60_000_000
    } else {
        let m: i64 = if d == i64::MIN {
            i64::MAX
        } else {
            -d
        };
        assert(d == i64::MIN ==> (-(d as int)) / 60_000_000 == (i64::MAX as int) / 60_000_000);
        -(m / 60_000_000)
    }
}

/// The whole seconds of `t` since the epoch, rounded down
/// (`DateTime::timestamp`).
pub fn unix_seconds(t: i64) -> (r: i64)
    ensures
        r == t / 1_000_000,
{
    if t >= 0 {
        t / 1_000_000
    } else {
        let m: i64 = if t == i64::MIN {
            i64::MAX
        } else {
            -t
        };
        let q = m / 1_000_000;
        let rem = m % 1_000_000;
        assert(t == i64::MIN ==> ((-(t as int)) / 1_000_000 == (i64::MAX as int) / 1_000_000 && (
        -(t as int)) % 1_000_000 != 0));
        if rem == 0 {
            -q
        } else {
            -q - 1
        }
    }
}

} // verus!
