//! The year of a release date written as `YYYY`, `YYYY-MM` or `YYYY-MM-DD`.
//!
//! A date is parted at each `-`. Where its first part has four characters and
//! reads as an integer, that integer is the year. Any other text has no year.

use vstd::prelude::*;
use vstd::string::StrSliceExecFns;

verus! {

/// Whether `c` is one of the ten ASCII digits.
pub open spec fn is_digit(c: char) -> bool {
    '0' <= c && c <= '9'
}

/// The value of an ASCII digit.
pub open spec fn digit_value(c: char) -> int
    recommends
        is_digit(c),
{
    c as int - '0' as int
}

/// Whether the first part of `date` ends before place `n`: at the first `-`,
/// or at the end of a date without one.
pub open spec fn ends_first_part(date: Seq<char>, n: int) -> bool {
    &&& 0 <= n <= date.len()
    &&& n == date.len() || date[n] == '-'
    &&& forall|j: int| 0 <= j < n ==> date[j] != '-'
}

/// The text of `date` before its first `-`; all of it where it holds none.
pub open spec fn first_part(date: Seq<char>) -> Seq<char> {
    date.take(choose|n: int| ends_first_part(date, n))
}

/// The digits of a text that may begin with a `+`.
pub open spec fn unsigned(part: Seq<char>) -> Seq<char> {
    if part.len() > 0 && part[0] == '+' {
        part.drop_first()
    } else {
        part
    }
}

/// Whether a text without `-` reads as a decimal integer: one digit or more,
/// with or without a `+` before them.
pub open spec fn is_integer(part: Seq<char>) -> bool {
    &&& unsigned(part).len() > 0
    &&& forall|i: int| 0 <= i < unsigned(part).len() ==> is_digit(unsigned(part)[i])
}

/// The number that a sequence of digits stands for.
pub open spec fn decimal_value(digits: Seq<char>) -> int
    decreases digits.len(),
{
    if digits.len() == 0 {
        0
    } else {
        10 * decimal_value(digits.drop_last()) + digit_value(digits.last())
    }
}

/// The year of `date`, if it has one.
pub open spec fn year_of(date: Seq<char>) -> Option<i32> {
    let part = first_part(date);
    if part.len() == 4 && is_integer(part) {
        Some(decimal_value(unsigned(part)) as i32)
    } else {
        None
    }
}

/// Whether `date` begins with four digits, or a `+` and three digits, and
/// either ends there or goes on with a `-`.
pub open spec fn has_year(date: Seq<char>) -> bool {
    &&& date.len() >= 4
    &&& date.len() == 4 || date[4] == '-'
    &&& is_digit(date[0]) || date[0] == '+'
    &&& is_digit(date[1])
    &&& is_digit(date[2])
    &&& is_digit(date[3])
}

/// The number that the first four characters of `date` stand for.
pub open spec fn year_value(date: Seq<char>) -> int
    recommends
        has_year(date),
{
    (if date[0] == '+' {
        0
    } else {
        1000 * digit_value(date[0])
    }) + 100 * digit_value(date[1]) + 10 * digit_value(date[2]) + digit_value(date[3])
}

/// The first part of a date ends in one place only.
pub proof fn lemma_first_part_end_is_unique(date: Seq<char>, m: int, n: int)
    requires
        ends_first_part(date, m),
        ends_first_part(date, n),
    ensures
        m == n,
{
}

/// Every date has a first part.
pub proof fn lemma_first_part_ends(date: Seq<char>)
    ensures
        ends_first_part(date, first_part(date).len() as int),
        first_part(date) == date.take(first_part(date).len() as int),
    decreases date.len(),
{
    if date.len() == 0 {
        assert(ends_first_part(date, 0));
    } else {
        let front = date.drop_last();
        lemma_first_part_ends(front);
        let n = first_part(front).len() as int;
        assert forall|j: int| 0 <= j < n implies date[j] != '-' by {
            assert(front[j] == date[j]);
        }
        if n < front.len() {
            assert(ends_first_part(date, n));
        } else if date.last() == '-' {
            assert(ends_first_part(date, n));
        } else {
            assert(ends_first_part(date, n + 1));
        }
    }
}

/// A date has a year where it has the shape of one, and only there; and the
/// year is what its first four characters stand for, from 0 to 9999.
pub proof fn lemma_year_by_shape(date: Seq<char>)
    ensures
        year_of(date) is Some <==> has_year(date),
        has_year(date) ==> year_of(date) == Some(year_value(date) as i32),
        has_year(date) ==> 0 <= year_value(date) <= 9999,
{
    lemma_first_part_ends(date);
    let part = first_part(date);
    let n = part.len() as int;
    if has_year(date) {
        lemma_first_part_end_is_unique(date, 4, n);
        let digits = unsigned(part);
        reveal_with_fuel(decimal_value, 5);
        if date[0] == '+' {
            assert(digits =~= seq![date[1], date[2], date[3]]);
        } else {
            assert(digits =~= seq![date[0], date[1], date[2], date[3]]);
        }
    } else if n == 4 && is_integer(part) {
        let digits = unsigned(part);
        if part[0] == '+' {
            assert(is_digit(digits[0]) && is_digit(digits[1]) && is_digit(digits[2]));
        } else {
            assert(is_digit(digits[0]) && is_digit(digits[1]) && is_digit(digits[2])
                && is_digit(digits[3]));
        }
    }
}

fn digit_of(c: char) -> (d: Option<i32>)
    ensures
        d is Some <==> is_digit(c),
        d matches Some(v) ==> v == digit_value(c),
{
    if '0' <= c && c <= '9' {
        Some((c as u32 - '0' as u32) as i32)
    } else {
        None
    }
}

/// Reads the year of a release date. A text whose first part is not an
/// integer of four characters has no year; none is an error.
pub fn extract_year(date_string: &str) -> (year: Option<i32>)
    ensures
        year == year_of(date_string@),
        year is Some <==> has_year(date_string@),
        year matches Some(y) ==> y == year_value(date_string@),
{
    proof {
        lemma_year_by_shape(date_string@);
    }
    let n: usize = date_string.unicode_len();
    if n < 4 {
        return None;
    }
    if n > 4 && date_string.get_char(4) != '-' {
        return None;
    }
    let c0: char = date_string.get_char(0);
    let thousands: i32 = if c0 == '+' {
        0
    } else {
        match digit_of(c0) {
            Some(d) => 1000 * d,
            None => {
                return None;
            },
        }
    };
    let hundreds: i32 = match digit_of(date_string.get_char(1)) {
        Some(d) => d,
        None => {
            return None;
        },
    };
    let tens: i32 = match digit_of(date_string.get_char(2)) {
        Some(d) => d,
        None => {
            return None;
        },
    };
    let units: i32 = match digit_of(date_string.get_char(3)) {
        Some(d) => d,
        None => {
            return None;
        },
    };
    Some(thousands + 100 * hundreds + 10 * tens + units)
}

} // verus!
