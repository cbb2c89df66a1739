//! The report: each phase's elapsed time, rendered in milliseconds with two
//! decimal places, and the total, which is the exact sum of the three phase
//! times.
//!
//! Durations are modelled as whole microseconds, so every quantity here is
//! an unsigned integer and the arithmetic is exact.  A duration of `us`
//! microseconds is printed as `us / 1000` milliseconds rounded half-up to
//! two decimals: the digits of `(us + 5) / 10` hundredths of a millisecond,
//! split around the decimal point.

use vstd::arithmetic::div_mod::lemma_fundamental_div_mod;
use vstd::arithmetic::div_mod::lemma_fundamental_div_mod_converse;
use vstd::prelude::*;
use vstd::string::StringExecFns;

use crate::text_phase::push_char;
use crate::text_phase::string_with_capacity;

verus! {

/// The character for one decimal digit.
pub open spec fn spec_digit(d: int) -> char {
    if d == 0 {
        '0'
    } else if d == 1 {
        '1'
    } else if d == 2 {
        '2'
    } else if d == 3 {
        '3'
    } else if d == 4 {
        '4'
    } else if d == 5 {
        '5'
    } else if d == 6 {
        '6'
    } else if d == 7 {
        '7'
    } else if d == 8 {
        '8'
    } else {
        '9'
    }
}

/// The decimal digits of a non-negative number, most significant first,
/// with no leading zero except for the number zero itself.
pub open spec fn spec_decimal(n: int) -> Seq<char>
    recommends
        n >= 0,
    decreases n,
{
    if n < 10 {
        seq![spec_digit(n)]
    } else {
        spec_decimal(n / 10).push(spec_digit(n % 10))
    }
}

/// A number below 100 as exactly two digits, zero-padded.
pub open spec fn spec_pad2(n: int) -> Seq<char>
    recommends
        0 <= n < 100,
{
    if n < 10 {
        seq!['0'] + spec_decimal(n)
    } else {
        spec_decimal(n)
    }
}

/// A duration of `us` microseconds rendered in milliseconds with two
/// decimal places, rounded half-up: the digits of `(us + 5) / 10`
/// hundredths of a millisecond, split around the decimal point.
pub open spec fn spec_millis(us: int) -> Seq<char>
    recommends
        us >= 0,
{
    let h = (us + 5) / 10;
    spec_decimal(h / 100) + seq!['.'] + spec_pad2(h % 100)
}

/// The character for one digit value.
fn digit_char(d: u64) -> (c: char)
    requires
        d < 10,
    ensures
        c == spec_digit(d as int),
{
    match d {
        0 => '0',
        1 => '1',
        2 => '2',
        3 => '3',
        4 => '4',
        5 => '5',
        6 => '6',
        7 => '7',
        8 => '8',
        _ => '9',
    }
}

/// The decimal rendering of a 64-bit number.
pub fn u64_to_decimal(n: u64) -> (r: String)
    ensures
        r@ == spec_decimal(n as int),
    decreases n,
{
    if n < 10 {
        let mut s = string_with_capacity(1);
        push_char(&mut s, digit_char(n));
        proof {
            assert(s@ =~= spec_decimal(n as int));
        }
        s
    } else {
        let mut s = u64_to_decimal(n / 10);
        push_char(&mut s, digit_char(n % 10));
        s
    }
}

/// Microseconds rounded half-up to hundredths of a millisecond.
fn round_to_hundredths(us: u64) -> (r: u64)
    ensures
        r == (us as int + 5) / 10,
{
    let q = us / 10;
    let rem = us % 10;
    proof {
        lemma_fundamental_div_mod(us as int, 10);
        if rem >= 5 {
            lemma_fundamental_div_mod_converse(us as int + 5, 10, q as int + 1, rem as int - 5);
        } else {
            lemma_fundamental_div_mod_converse(us as int + 5, 10, q as int, rem as int + 5);
        }
    }
    if rem >= 5 {
        q + 1
    } else {
        q
    }
}

/// A duration of `us` microseconds as a millisecond string with two
/// decimal places.
pub fn format_millis(us: u64) -> (r: String)
    ensures
        r@ == spec_millis(us as int),
{
    let h = round_to_hundredths(us);
    let mut s = u64_to_decimal(h / 100);
    push_char(&mut s, '.');
    let frac = h % 100;
    if frac < 10 {
        push_char(&mut s, '0');
        push_char(&mut s, digit_char(frac));
        proof {
            assert(s@ =~= spec_millis(us as int));
        }
    } else {
        let frac_digits = u64_to_decimal(frac);
        s.append(frac_digits.as_str());
        proof {
            assert(s@ =~= spec_millis(us as int));
        }
    }
    s
}

/// The banner that opens the report.
pub fn banner_line() -> (r: String)
    ensures
        r@ == "Rust Benchmark"@,
{
    "Rust Benchmark".to_owned()
}

/// A label followed by a duration in milliseconds and the unit.
fn timed_line(label: &str, us: u64) -> (r: String)
    ensures
        r@ == label@ + spec_millis(us as int) + " ms"@,
{
    let mut s = label.to_owned();
    let millis = format_millis(us);
    s.append(millis.as_str());
    s.append(" ms");
    s
}

/// The array phase's report line.
pub fn array_line(us: u64) -> (r: String)
    ensures
        r@ == "Array operations: "@ + spec_millis(us as int) + " ms"@,
{
    timed_line("Array operations: ", us)
}

/// The string phase's report line.
pub fn string_line(us: u64) -> (r: String)
    ensures
        r@ == "String operations: "@ + spec_millis(us as int) + " ms"@,
{
    timed_line("String operations: ", us)
}

/// The math phase's report line.
pub fn math_line(us: u64) -> (r: String)
    ensures
        r@ == "Math operations: "@ + spec_millis(us as int) + " ms"@,
{
    timed_line("Math operations: ", us)
}

/// The sum of the three phase durations, or `None` where it would not fit
/// in 64 bits.
pub fn total_micros(array_us: u64, string_us: u64, math_us: u64) -> (r: Option<u64>)
    ensures
        r is Some <==> array_us + string_us + math_us <= u64::MAX,
        r is Some ==> r->0 == array_us + string_us + math_us,
{
    match array_us.checked_add(string_us) {
        Some(partial) => partial.checked_add(math_us),
        None => None,
    }
}

/// The closing line: the total is the exact sum of the three phase
/// durations.
pub fn total_line(array_us: u64, string_us: u64, math_us: u64) -> (r: String)
    requires
        array_us + string_us + math_us <= u64::MAX,
    ensures
        r@ == "Total execution time: "@ + spec_millis(array_us + string_us + math_us) + " ms"@,
{
    let total = array_us + string_us + math_us;
    timed_line("Total execution time: ", total)
}

/// The whole report: exactly five lines, in order the banner, the three
/// phase lines, and the total line computed from the exact sum of the three
/// durations.
pub fn report_lines(array_us: u64, string_us: u64, math_us: u64) -> (r: Vec<String>)
    requires
        array_us + string_us + math_us <= u64::MAX,
    ensures
        r@.len() == 5,
        r@[0]@ == "Rust Benchmark"@,
        r@[1]@ == "Array operations: "@ + spec_millis(array_us as int) + " ms"@,
        r@[2]@ == "String operations: "@ + spec_millis(string_us as int) + " ms"@,
        r@[3]@ == "Math operations: "@ + spec_millis(math_us as int) + " ms"@,
        r@[4]@ == "Total execution time: "@ + spec_millis(array_us + string_us + math_us)
            + " ms"@,
{
    let mut lines: Vec<String> = Vec::new();
    lines.push(banner_line());
    lines.push(array_line(array_us));
    lines.push(string_line(string_us));
    lines.push(math_line(math_us));
    lines.push(total_line(array_us, string_us, math_us));
    lines
}

} // verus!
