//! Days-in-month arithmetic with the Gregorian leap-year rule.

use vstd::prelude::*;
use vstd::arithmetic::div_mod::{
    lemma_fundamental_div_mod, lemma_fundamental_div_mod_converse_mod, lemma_mod_bound,
};

verus! {

/// A number and its negation are divisible by the same positive divisors.
proof fn lemma_neg_divisible(x: int, d: int)
    requires
        0 < d,
    ensures
        (x % d == 0) <==> ((-x) % d == 0),
{
    let q = x / d;
    let r = x % d;
    lemma_fundamental_div_mod(x, d);
    lemma_mod_bound(x, d);
    if r == 0 {
        assert(-x == (-q) * d + 0) by (nonlinear_arith)
            requires
                x == q * d + r,
                r == 0,
        ;
        lemma_fundamental_div_mod_converse_mod(-x, d, -q, 0);
    } else {
        assert(-x == (-q - 1) * d + (d - r)) by (nonlinear_arith)
            requires
                x == q * d + r,
        ;
        lemma_fundamental_div_mod_converse_mod(-x, d, -q - 1, d - r);
    }
}

/// A year is leap when it is divisible by 4 and not by 100, or divisible
/// by 400.
pub open spec fn spec_is_leap(year: int) -> bool {
    (year % 4 == 0 && year % 100 != 0) || year % 400 == 0
}

/// Number of days of a month: February has 29 in leap years and 28
/// otherwise; April, June, September and November have 30; the rest 31.
pub open spec fn spec_days_in_month(year: int, month: int) -> int {
    if month == 2 {
        if spec_is_leap(year) {
            29
        } else {
            28
        }
    } else if month == 4 || month == 6 || month == 9 || month == 11 {
        30
    } else {
        31
    }
}

pub fn is_leap(year: i32) -> (r: bool)
    ensures
        r == spec_is_leap(year as int),
{
    let r4: i32 = year % 4;
    let r100: i32 = year % 100;
    let r400: i32 = year % 400;
    proof {
        if year < 0 {
            lemma_neg_divisible(year as int, 4);
            lemma_neg_divisible(year as int, 100);
            lemma_neg_divisible(year as int, 400);
        }
    }
    (r4 == 0 && r100 != 0) || r400 == 0
}

pub fn get_days_in_month(year: i32, month: u32) -> (d: u32)
    requires
        1 <= month <= 12,
    ensures
        d as int == spec_days_in_month(year as int, month as int),
        28 <= d <= 31,
{
    match month {
        2 => if is_leap(year) {
            29
        } else {
            28
        },
        4 | 6 | 9 | 11 => 30,
        _ => 31,
    }
}

/// February has 29 days exactly in leap years, and 28 otherwise.
pub proof fn lemma_february_days(year: int)
    ensures
        spec_days_in_month(year, 2) == 29 <==> ((year % 4 == 0 && year % 100 != 0) || year % 400
            == 0),
        spec_days_in_month(year, 2) == 29 || spec_days_in_month(year, 2) == 28,
{
}

/// April, June, September and November always have 30 days; every other
/// month besides February always has 31.
pub proof fn lemma_fixed_month_days(year: int, month: int)
    requires
        1 <= month <= 12,
        month != 2,
    ensures
        (month == 4 || month == 6 || month == 9 || month == 11) ==> spec_days_in_month(
            year,
            month,
        ) == 30,
        !(month == 4 || month == 6 || month == 9 || month == 11) ==> spec_days_in_month(
            year,
            month,
        ) == 31,
{
}

} // verus!
