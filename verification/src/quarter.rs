//! Rounding to quarters of an hour, for a line that a stopwatch adds to the
//! log.

use vstd::prelude::*;
use vstd::string::*;

verus! {

/// The quotient of `a` by a positive `b`, rounded towards zero.
pub open spec fn quotient(a: int, b: int) -> int {
    if a >= 0 {
        a / b
    } else {
        -((-a) / b)
    }
}

/// What is left of `a` when the quotient by `b`, rounded towards zero, is
/// taken out. It has the sign of `a`.
pub open spec fn remainder(a: int, b: int) -> int {
    a - b * quotient(a, b)
}

/// The minutes beyond whole hours, rounded to the nearest quarter of an hour
/// and given in hundredths of an hour: 0, 25, 50, 75 or 100, with the sign of
/// `min`.
pub open spec fn nearest_quarter(min: int) -> int {
    quotient(2 * remainder(min, 60) + 15, 30) * 25
}

/// The character that writes the digit `d`.
pub open spec fn digit_char(d: int) -> char {
    (d + 48) as u8 as char
}

/// A natural number written in base ten, without leading zeros.
pub open spec fn natural_text(n: nat) -> Seq<char>
    decreases n,
{
    if n < 10 {
        seq![digit_char(n as int)]
    } else {
        natural_text(n / 10).push(digit_char((n % 10) as int))
    }
}

/// A whole number written in base ten, with `-` in front where it is
/// negative.
pub open spec fn integer_text(n: int) -> Seq<char> {
    if n < 0 {
        seq!['-'] + natural_text((-n) as nat)
    } else {
        natural_text(n as nat)
    }
}

/// A number of minutes as hours, rounded to the nearest quarter: the whole
/// hours, then, unless the rest rounds to a whole hour, a period and the
/// hundredths 25, 50 or 75, then `h`. Each part keeps the sign of `min`.
pub open spec fn rounded_duration_text(min: int) -> Seq<char> {
    let hundredths = nearest_quarter(min);
    let whole = quotient(min, 60) + quotient(hundredths, 100);
    let part = remainder(hundredths, 100);
    if part == 0 {
        integer_text(whole) + seq!['h']
    } else {
        integer_text(whole) + seq!['.'] + integer_text(part) + seq!['h']
    }
}

/// The minute of a clock time, rounded to the nearest quarter of an hour: 0,
/// 15, 30 or 45.
pub open spec fn quarter_minute(minute: int) -> int {
    ((2 * minute + 15) / 30 * 15) % 60
}

/// The hour of a clock time once its minute is rounded to the nearest
/// quarter: the next hour from minute 53 on, and 0 after 23.
pub open spec fn quarter_hour(hour: int, minute: int) -> int {
    if minute > 52 {
        if hour == 23 {
            0
        } else {
            hour + 1
        }
    } else {
        hour
    }
}

/// A clock time rounded to the nearest quarter of an hour, written as hour,
/// colon and minute, neither padded with zeros.
pub open spec fn time_quarter_text(hour: int, minute: int) -> Seq<char> {
    natural_text(quarter_hour(hour, minute) as nat) + seq![':'] + natural_text(
        quarter_minute(minute) as nat,
    )
}

/// The minutes beyond whole hours, rounded to the nearest quarter of an hour
/// and given in hundredths of an hour.
pub fn nearest_quater_hour(min: i64) -> (r: i64)
    ensures
        r == nearest_quarter(min as int),
        min >= 0 ==> r == 0 || r == 25 || r == 50 || r == 75 || r == 100,
{
    let m: i64 = min % 60;
    let quarters: i64 = (2 * m + 15) / 30;
    quarters * 25
}

/// The text of one digit.
fn digit_str(d: u64) -> (r: &'static str)
    requires
        d < 10,
    ensures
        r@ == seq![digit_char(d as int)],
{
    proof {
        reveal_strlit("0");
        reveal_strlit("1");
        reveal_strlit("2");
        reveal_strlit("3");
        reveal_strlit("4");
        reveal_strlit("5");
        reveal_strlit("6");
        reveal_strlit("7");
        reveal_strlit("8");
        reveal_strlit("9");
    }
    let r = if d == 0 {
        "0"
    } else if d == 1 {
        "1"
    } else if d == 2 {
        "2"
    } else if d == 3 {
        "3"
    } else if d == 4 {
        "4"
    } else if d == 5 {
        "5"
    } else if d == 6 {
        "6"
    } else if d == 7 {
        "7"
    } else if d == 8 {
        "8"
    } else {
        "9"
    };
    assert(r@ =~= seq![digit_char(d as int)]);
    r
}

/// Writes a natural number in base ten.
pub fn natural_to_string(n: u64) -> (r: String)
    ensures
        r@ == natural_text(n as nat),
    decreases n,
{
    if n < 10 {
        digit_str(n).to_owned()
    } else {
        let mut r = natural_to_string(n / 10);
        r.append(digit_str(n % 10));
        assert(r@ =~= natural_text(n as nat));
        r
    }
}

/// Writes a whole number in base ten.
pub fn integer_to_string(n: i64) -> (r: String)
    ensures
        r@ == integer_text(n as int),
{
    if n < 0 {
        let magnitude: u64 = if n == i64::MIN {
            9223372036854775808
        } else {
            (-n) as u64
        };
        let mut r = "-".to_owned();
        r.append(natural_to_string(magnitude).as_str());
        proof {
            reveal_strlit("-");
            assert(r@ =~= integer_text(n as int));
        }
        r
    } else {
        natural_to_string(n as u64)
    }
}

/// A number of minutes as hours, rounded to the nearest quarter, as a table
/// cell shows it: `1h`, `1.25h`, `1.50h`, `1.75h`.
pub fn get_rounded_duration(min: i64) -> (r: String)
    ensures
        r@ == rounded_duration_text(min as int),
{
    let h: i64 = min / 60;
    let m: i64 = nearest_quater_hour(min);
    let mut r = integer_to_string(h + m / 100);
    if m % 100 != 0 {
        r.append(".");
        r.append(integer_to_string(m % 100).as_str());
    }
    r.append("h");
    proof {
        reveal_strlit(".");
        reveal_strlit("h");
        assert(r@ =~= rounded_duration_text(min as int));
    }
    r
}

/// A clock time rounded to the nearest quarter of an hour, as a table cell
/// shows it: `18:45`, `9:0`.
pub fn get_time_quater(hour: u32, minute: u32) -> (r: String)
    requires
        hour < 24,
        minute < 60,
    ensures
        r@ == time_quarter_text(hour as int, minute as int),
{
    let m: u32 = ((2 * minute + 15) / 30 * 15) % 60;
    let h: u32 = if minute > 52 {
        if hour == 23 {
            0
        } else {
            hour + 1
        }
    } else {
        hour
    };
    let mut r = natural_to_string(h as u64);
    r.append(":");
    r.append(natural_to_string(m as u64).as_str());
    proof {
        reveal_strlit(":");
        assert(r@ =~= time_quarter_text(hour as int, minute as int));
    }
    r
}

} // verus!
