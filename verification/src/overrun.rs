//! Duration texts whose sum runs over the end of the representable time, which is 2^64 seconds.
//!
//! A duration is a whole number of seconds that fits 64 bits, and less than a second of
//! nanoseconds. A text adds up one time span after the other. Where the seconds come to their
//! maximum and the nanoseconds to a full second, neither a duration nor an error comes out.

use vstd::prelude::*;
use vstd::string::*;

use crate::text;

verus! {

/// The nanoseconds in a second.
pub const NANOS_PER_SEC: u64 = 1_000_000_000;

/// A unit of time.
#[derive(Debug, Clone, Copy, PartialEq, Eq, Structural)]
pub enum Unit {
    Nanosecond,
    Microsecond,
    Millisecond,
    Second,
    Minute,
    Hour,
    Day,
    Week,
    /// 30.44 days.
    Month,
    /// 365.25 days.
    Year,
}

/// A fraction of a unit.
#[derive(Debug, Clone, Copy, PartialEq, Eq, Structural)]
pub struct Fraction {
    pub numerator: u64,
    pub denominator: u64,
}

/// A sum of time spans: seconds, and nanoseconds of the next one.
#[derive(Debug, Clone, Copy, PartialEq, Eq, Structural)]
pub struct Total {
    pub secs: u64,
    pub nanos: u64,
}

/// What an addition comes to.
#[derive(Debug, Clone, Copy, PartialEq, Eq, Structural)]
pub enum Sum {
    Within(Total),
    /// The sum is exactly 2^64 seconds, of which the last is a full second of nanoseconds.
    Overrun,
    /// There is an error.
    Refused,
}

/// How far a text has been read.
#[derive(Debug, Clone, Copy, PartialEq, Eq, Structural)]
pub enum Place {
    /// Before a number.
    Start,
    /// In a number.
    Whole(u64),
    /// Behind the decimal point of a number.
    Fraction(u64, Fraction),
    /// In the unit of a number, which began at this index.
    Unit(u64, Option<Fraction>, usize),
}

/// What reading a character comes to.
#[derive(Debug, Clone, Copy, PartialEq, Eq, Structural)]
pub enum Step {
    On(Place, Total),
    Overrun,
    Refused,
}

// ── Units ───────────────────────────────────────────────────────────────

/// The unit that a word names.
pub open spec fn unit_named(word: Seq<char>) -> Option<Unit> {
    if word == "nanos"@ || word == "nsec"@ || word == "ns"@ {
        Some(Unit::Nanosecond)
    } else if word == "usec"@ || word == "us"@ || word == "\u{b5}s"@ {
        Some(Unit::Microsecond)
    } else if word == "millis"@ || word == "msec"@ || word == "ms"@ {
        Some(Unit::Millisecond)
    } else if word == "seconds"@ || word == "second"@ || word == "secs"@ || word == "sec"@ || word
        == "s"@ {
        Some(Unit::Second)
    } else if word == "minutes"@ || word == "minute"@ || word == "min"@ || word == "mins"@ || word
        == "m"@ {
        Some(Unit::Minute)
    } else if word == "hours"@ || word == "hour"@ || word == "hr"@ || word == "hrs"@ || word
        == "h"@ {
        Some(Unit::Hour)
    } else if word == "days"@ || word == "day"@ || word == "d"@ {
        Some(Unit::Day)
    } else if word == "weeks"@ || word == "week"@ || word == "wk"@ || word == "wks"@ || word
        == "w"@ {
        Some(Unit::Week)
    } else if word == "months"@ || word == "month"@ || word == "M"@ {
        Some(Unit::Month)
    } else if word == "years"@ || word == "year"@ || word == "yr"@ || word == "yrs"@ || word
        == "y"@ {
        Some(Unit::Year)
    } else {
        None
    }
}

/// Says whether a word is a certain one.
fn is(word: &String, name: &str) -> (r: bool)
    ensures
        r == (word@ == name@),
{
    *word == String::from_str(name)
}

/// Finds the unit that a word names.
fn find_unit(word: &String) -> (r: Option<Unit>)
    ensures
        r == unit_named(word@),
{
    if is(word, "nanos") || is(word, "nsec") || is(word, "ns") {
        Some(Unit::Nanosecond)
    } else if is(word, "usec") || is(word, "us") || is(word, "\u{b5}s") {
        Some(Unit::Microsecond)
    } else if is(word, "millis") || is(word, "msec") || is(word, "ms") {
        Some(Unit::Millisecond)
    } else if is(word, "seconds") || is(word, "second") || is(word, "secs") || is(word, "sec")
        || is(word, "s") {
        Some(Unit::Second)
    } else if is(word, "minutes") || is(word, "minute") || is(word, "min") || is(word, "mins")
        || is(word, "m") {
        Some(Unit::Minute)
    } else if is(word, "hours") || is(word, "hour") || is(word, "hr") || is(word, "hrs") || is(
        word,
        "h",
    ) {
        Some(Unit::Hour)
    } else if is(word, "days") || is(word, "day") || is(word, "d") {
        Some(Unit::Day)
    } else if is(word, "weeks") || is(word, "week") || is(word, "wk") || is(word, "wks") || is(
        word,
        "w",
    ) {
        Some(Unit::Week)
    } else if is(word, "months") || is(word, "month") || is(word, "M") {
        Some(Unit::Month)
    } else if is(word, "years") || is(word, "year") || is(word, "yr") || is(word, "yrs") || is(
        word,
        "y",
    ) {
        Some(Unit::Year)
    } else {
        None
    }
}

/// The seconds and the nanoseconds in a unit.
pub open spec fn unit_size(unit: Unit) -> (u64, u64) {
    match unit {
        Unit::Nanosecond => (0, 1),
        Unit::Microsecond => (0, 1_000),
        Unit::Millisecond => (0, 1_000_000),
        Unit::Second => (1, 0),
        Unit::Minute => (60, 0),
        Unit::Hour => (3_600, 0),
        Unit::Day => (86_400, 0),
        Unit::Week => (604_800, 0),
        Unit::Month => (2_630_016, 0),
        Unit::Year => (31_557_600, 0),
    }
}

/// The seconds or nanoseconds in which fractions of a unit are counted; those of a nanosecond
/// are not. Fractions of a second and of a minute are nanoseconds, those of longer units whole
/// seconds.
pub open spec fn fraction_size(unit: Unit) -> Option<(u64, u64)> {
    match unit {
        Unit::Nanosecond => None,
        Unit::Second => Some((0, 1_000_000_000)),
        Unit::Minute => Some((0, 60_000_000_000)),
        unit => Some(unit_size(unit)),
    }
}

fn size_of_unit(unit: Unit) -> (r: (u64, u64))
    ensures
        r == unit_size(unit),
{
    match unit {
        Unit::Nanosecond => (0, 1),
        Unit::Microsecond => (0, 1_000),
        Unit::Millisecond => (0, 1_000_000),
        Unit::Second => (1, 0),
        Unit::Minute => (60, 0),
        Unit::Hour => (3_600, 0),
        Unit::Day => (86_400, 0),
        Unit::Week => (604_800, 0),
        Unit::Month => (2_630_016, 0),
        Unit::Year => (31_557_600, 0),
    }
}

fn size_of_fraction(unit: Unit) -> (r: Option<(u64, u64)>)
    ensures
        r == fraction_size(unit),
{
    match unit {
        Unit::Nanosecond => None,
        Unit::Second => Some((0, 1_000_000_000)),
        Unit::Minute => Some((0, 60_000_000_000)),
        unit => Some(size_of_unit(unit)),
    }
}

// ── Sums ────────────────────────────────────────────────────────────────

/// Adds seconds and nanoseconds. More than a second of nanoseconds is carried over. What does not
/// fit 64 bits is an error.
pub open spec fn plus(total: Total, secs: int, nanos: int) -> Sum {
    let all = total.nanos + nanos;
    let carried = all > NANOS_PER_SEC;
    let nanos = if carried {
        all % (NANOS_PER_SEC as int)
    } else {
        all
    };
    let secs = total.secs + secs + if carried {
        all / (NANOS_PER_SEC as int)
    } else {
        0
    };
    if all > u64::MAX || secs > u64::MAX {
        Sum::Refused
    } else if nanos < NANOS_PER_SEC {
        Sum::Within(Total { secs: secs as u64, nanos: nanos as u64 })
    } else if secs < u64::MAX {
        Sum::Within(Total { secs: (secs + 1) as u64, nanos: 0 })
    } else {
        Sum::Overrun
    }
}

/// An addition runs over exactly where the seconds come to their maximum and the nanoseconds to a
/// full second; the sum is then 2^64 seconds.
pub proof fn law_overrun_is_the_end(total: Total, secs: nat, nanos: nat)
    ensures
        plus(total, secs as int, nanos as int) == Sum::Overrun <==> total.secs + secs == u64::MAX
            && total.nanos + nanos == NANOS_PER_SEC,
        plus(total, secs as int, nanos as int) == Sum::Overrun ==> (total.secs + secs)
            * NANOS_PER_SEC + total.nanos + nanos == 0x1_0000_0000_0000_0000 * NANOS_PER_SEC,
{
}

/// Adds `numerator` over `denominator` of the seconds and nanoseconds of `size`. It is an error
/// where that is not a whole number of seconds or nanoseconds.
pub open spec fn plus_share(
    total: Total,
    size: (u64, u64),
    numerator: u64,
    denominator: u64,
) -> Sum {
    let secs = numerator * size.0;
    let nanos = numerator * size.1;
    if secs > u64::MAX || nanos > u64::MAX || secs % (denominator as int) != 0 || nanos % (
    denominator as int) != 0 {
        Sum::Refused
    } else {
        plus(total, secs / (denominator as int), nanos / (denominator as int))
    }
}

/// Adds a number with its unit: first the whole units, then the fraction of one.
pub open spec fn plus_term(
    total: Total,
    whole: u64,
    fraction: Option<Fraction>,
    word: Seq<char>,
) -> Sum {
    match unit_named(word) {
        None => Sum::Refused,
        Some(unit) => match plus_share(total, unit_size(unit), whole, 1) {
            Sum::Within(total) => match fraction {
                None => Sum::Within(total),
                Some(fraction) => match fraction_size(unit) {
                    None => Sum::Refused,
                    Some(size) => plus_share(
                        total,
                        size,
                        fraction.numerator,
                        fraction.denominator,
                    ),
                },
            },
            sum => sum,
        },
    }
}

/// Adds seconds and nanoseconds.
fn add_current(total: Total, secs: u64, nanos: u64) -> (r: Sum)
    requires
        total.nanos < NANOS_PER_SEC,
    ensures
        r == plus(total, secs as int, nanos as int),
        r matches Sum::Within(total) ==> total.nanos < NANOS_PER_SEC,
{
    let all = match total.nanos.checked_add(nanos) {
        Some(all) => all,
        None => {
            return Sum::Refused;
        },
    };
    let (carry, nanos) = if all > NANOS_PER_SEC {
        (all / NANOS_PER_SEC, all % NANOS_PER_SEC)
    } else {
        (0, all)
    };
    let secs = match secs.checked_add(carry) {
        Some(secs) => secs,
        None => {
            return Sum::Refused;
        },
    };
    let secs = match total.secs.checked_add(secs) {
        Some(secs) => secs,
        None => {
            return Sum::Refused;
        },
    };
    if nanos < NANOS_PER_SEC {
        Sum::Within(Total { secs, nanos })
    } else if secs < u64::MAX {
        Sum::Within(Total { secs: secs + 1, nanos: 0 })
    } else {
        Sum::Overrun
    }
}

/// Adds a share of a size.
fn add_share(total: Total, size: (u64, u64), numerator: u64, denominator: u64) -> (r: Sum)
    requires
        total.nanos < NANOS_PER_SEC,
        denominator > 0,
    ensures
        r == plus_share(total, size, numerator, denominator),
        r matches Sum::Within(total) ==> total.nanos < NANOS_PER_SEC,
{
    match (numerator.checked_mul(size.0), numerator.checked_mul(size.1)) {
        (Some(secs), Some(nanos)) => {
            if secs % denominator != 0 || nanos % denominator != 0 {
                Sum::Refused
            } else {
                add_current(total, secs / denominator, nanos / denominator)
            }
        },
        (_, _) => Sum::Refused,
    }
}

/// Adds a number with its unit.
fn add_term(total: Total, whole: u64, fraction: Option<Fraction>, word: &String) -> (r: Sum)
    requires
        total.nanos < NANOS_PER_SEC,
        fraction matches Some(f) ==> f.denominator > 0,
    ensures
        r == plus_term(total, whole, fraction, word@),
        r matches Sum::Within(total) ==> total.nanos < NANOS_PER_SEC,
{
    match find_unit(word) {
        None => Sum::Refused,
        Some(unit) => match add_share(total, size_of_unit(unit), whole, 1) {
            Sum::Within(total) => match fraction {
                None => Sum::Within(total),
                Some(fraction) => match size_of_fraction(unit) {
                    None => Sum::Refused,
                    Some(size) => add_share(
                        total,
                        size,
                        fraction.numerator,
                        fraction.denominator,
                    ),
                },
            },
            sum => sum,
        },
    }
}

// ── Texts ───────────────────────────────────────────────────────────────

/// The value of a decimal digit, if the character is one.
pub open spec fn digit_value(c: char) -> Option<u64> {
    if '0' <= c <= '9' {
        Some((c as int - 48) as u64)
    } else {
        None
    }
}

/// Whether units are written with a character.
pub open spec fn is_letter(c: char) -> bool {
    'a' <= c <= 'z' || 'A' <= c <= 'Z' || c == '\u{b5}'
}

/// A number with one more digit, if it fits 64 bits.
pub open spec fn with_digit(n: u64, d: u64) -> Option<u64> {
    if n * 10 + d <= u64::MAX {
        Some((n * 10 + d) as u64)
    } else {
        None
    }
}

/// Goes on at a place once a number with its unit has been added.
pub open spec fn once_added(sum: Sum, place: Place) -> Step {
    match sum {
        Sum::Within(total) => Step::On(place, total),
        Sum::Overrun => Step::Overrun,
        Sum::Refused => Step::Refused,
    }
}

/// Reads the character of `t` at `i`. White space stands before numbers, in them, and behind
/// units.
pub open spec fn read_char(t: Seq<char>, i: int, place: Place, total: Total) -> Step {
    let c = t[i];
    match place {
        Place::Start => match digit_value(c) {
            Some(d) => Step::On(Place::Whole(d), total),
            None => if text::white_space(c) {
                Step::On(place, total)
            } else {
                Step::Refused
            },
        },
        Place::Whole(n) => match digit_value(c) {
            Some(d) => match with_digit(n, d) {
                Some(n) => Step::On(Place::Whole(n), total),
                None => Step::Refused,
            },
            None => if text::white_space(c) {
                Step::On(place, total)
            } else if is_letter(c) {
                Step::On(Place::Unit(n, None, i as usize), total)
            } else if c == '.' {
                Step::On(Place::Fraction(n, Fraction { numerator: 0, denominator: 1 }), total)
            } else {
                Step::Refused
            },
        },
        Place::Fraction(n, f) => match digit_value(c) {
            Some(d) => match (with_digit(f.numerator, d), with_digit(f.denominator, 0)) {
                (Some(numerator), Some(denominator)) => Step::On(
                    Place::Fraction(n, Fraction { numerator, denominator }),
                    total,
                ),
                (_, _) => Step::Refused,
            },
            None => if text::white_space(c) {
                Step::On(place, total)
            } else if is_letter(c) && f.denominator > 1 {
                Step::On(Place::Unit(n, Some(f), i as usize), total)
            } else {
                Step::Refused
            },
        },
        Place::Unit(n, f, from) => {
            let sum = plus_term(total, n, f, t.subrange(from as int, i));
            match digit_value(c) {
                Some(d) => once_added(sum, Place::Whole(d)),
                None => if text::white_space(c) {
                    once_added(sum, Place::Start)
                } else if is_letter(c) {
                    Step::On(place, total)
                } else {
                    Step::Refused
                },
            }
        },
    }
}

/// Whether the sum of `t`, read from `i` on, runs over the end of the representable time.
pub open spec fn overruns_from(t: Seq<char>, i: int, place: Place, total: Total) -> bool
    decreases t.len() - i,
{
    if i >= t.len() {
        match place {
            Place::Unit(n, f, from) => plus_term(
                total,
                n,
                f,
                t.subrange(from as int, t.len() as int),
            ) == Sum::Overrun,
            _ => false,
        }
    } else {
        match read_char(t, i, place, total) {
            Step::On(place, total) => overruns_from(t, i + 1, place, total),
            Step::Overrun => true,
            Step::Refused => false,
        }
    }
}

/// Whether the sum of a text runs over the end of the representable time.
pub open spec fn overruns(t: Seq<char>) -> bool {
    overruns_from(t, 0, Place::Start, Total { secs: 0, nanos: 0 })
}

/// The place is one that reading `i` characters of a text can come to.
spec fn reached(place: Place, i: int) -> bool {
    match place {
        Place::Fraction(_, f) => f.denominator > 0,
        Place::Unit(_, f, from) => from <= i && (f matches Some(f) ==> f.denominator > 0),
        _ => true,
    }
}

fn find_digit(c: char) -> (r: Option<u64>)
    ensures
        r == digit_value(c),
        r matches Some(d) ==> d < 10,
{
    if '0' <= c && c <= '9' {
        Some(c as u64 - 48)
    } else {
        None
    }
}

fn push_digit(n: u64, d: u64) -> (r: Option<u64>)
    ensures
        r == with_digit(n, d),
{
    match n.checked_mul(10) {
        Some(m) => m.checked_add(d),
        None => None,
    }
}

fn after_sum(sum: Sum, place: Place) -> (r: Step)
    ensures
        r == once_added(sum, place),
{
    match sum {
        Sum::Within(total) => Step::On(place, total),
        Sum::Overrun => Step::Overrun,
        Sum::Refused => Step::Refused,
    }
}

/// Reads the character of `t` at `i`.
fn step(t: &str, i: usize, place: Place, total: Total) -> (r: Step)
    requires
        i < t@.len(),
        reached(place, i as int),
        total.nanos < NANOS_PER_SEC,
    ensures
        r == read_char(t@, i as int, place, total),
        r matches Step::On(place, total) ==> reached(place, i + 1) && total.nanos < NANOS_PER_SEC,
{
    let c = t.get_char(i);
    let digit = find_digit(c);
    let letter = ('a' <= c && c <= 'z') || ('A' <= c && c <= 'Z') || c == '\u{b5}';
    let blank = text::is_white_space(c);
    match (place, digit) {
        (Place::Start, Some(d)) => Step::On(Place::Whole(d), total),
        (Place::Start, None) => if blank {
            Step::On(place, total)
        } else {
            Step::Refused
        },
        (Place::Whole(n), Some(d)) => match push_digit(n, d) {
            Some(n) => Step::On(Place::Whole(n), total),
            None => Step::Refused,
        },
        (Place::Whole(n), None) => if blank {
            Step::On(place, total)
        } else if letter {
            Step::On(Place::Unit(n, None, i), total)
        } else if c == '.' {
            Step::On(Place::Fraction(n, Fraction { numerator: 0, denominator: 1 }), total)
        } else {
            Step::Refused
        },
        (Place::Fraction(n, f), Some(d)) => match (
            push_digit(f.numerator, d),
            push_digit(f.denominator, 0),
        ) {
            (Some(numerator), Some(denominator)) => Step::On(
                Place::Fraction(n, Fraction { numerator, denominator }),
                total,
            ),
            (_, _) => Step::Refused,
        },
        (Place::Fraction(n, f), None) => if blank {
            Step::On(place, total)
        } else if letter && f.denominator > 1 {
            Step::On(Place::Unit(n, Some(f), i), total)
        } else {
            Step::Refused
        },
        (Place::Unit(n, f, from), digit) => {
            if letter {
                return Step::On(place, total);
            }
            if digit.is_none() && !blank {
                return Step::Refused;
            }
            let word = String::from_str(t.substring_char(from, i));
            let sum = add_term(total, n, f, &word);
            match digit {
                Some(d) => after_sum(sum, Place::Whole(d)),
                None => after_sum(sum, Place::Start),
            }
        },
    }
}

/// Says whether the sum of a text runs over the end of the representable time.
pub fn does_overrun(t: &str) -> (r: bool)
    ensures
        r == overruns(t@),
{
    let len = t.unicode_len();
    let mut place = Place::Start;
    let mut total = Total { secs: 0, nanos: 0 };
    let mut i: usize = 0;
    while i < len
        invariant
            i <= len,
            len == t@.len(),
            reached(place, i as int),
            total.nanos < NANOS_PER_SEC,
            overruns(t@) == overruns_from(t@, i as int, place, total),
        decreases len - i,
    {
        match step(t, i, place, total) {
            Step::On(next_place, next_total) => {
                place = next_place;
                total = next_total;
            },
            Step::Overrun => {
                return true;
            },
            Step::Refused => {
                return false;
            },
        }
        i = i + 1;
    }
    match place {
        Place::Unit(n, f, from) => {
            let word = String::from_str(t.substring_char(from, len));
            match add_term(total, n, f, &word) {
                Sum::Overrun => true,
                _ => false,
            }
        },
        _ => false,
    }
}

// ── Laws ────────────────────────────────────────────────────────────────

/// How many decimal digits `t` has from `i` on.
pub open spec fn digits_from(t: Seq<char>, i: int) -> nat
    decreases t.len() - i,
{
    if i >= t.len() {
        0
    } else {
        digits_from(t, i + 1) + if digit_value(t[i]) is Some {
            1nat
        } else {
            0nat
        }
    }
}

/// The seconds in the longest unit.
const LONGEST: u64 = 31_557_600;

/// A power of ten.
spec fn power(n: nat) -> int
    decreases n,
{
    if n == 0 {
        1
    } else {
        10 * power((n - 1) as nat)
    }
}

/// More seconds than a sum comes to once the number that is being read is added.
spec fn reach(place: Place, total: Total) -> int {
    total.secs + 1 + match place {
        Place::Start => 0,
        Place::Whole(n) => (n + 2) * LONGEST,
        Place::Fraction(n, _) => (n + 2) * LONGEST,
        Place::Unit(n, _, _) => (n + 2) * LONGEST,
    }
}

/// The fraction is less than a whole.
spec fn proper(f: Fraction) -> bool {
    f.numerator < f.denominator
}

spec fn proper_place(place: Place) -> bool {
    match place {
        Place::Fraction(_, f) => proper(f),
        Place::Unit(_, Some(f), _) => proper(f),
        _ => true,
    }
}

/// An addition of `secs`, and of nanoseconds that come to less than `more` seconds, adds at most
/// both and one second; it runs over only at the end.
proof fn lemma_plus(total: Total, secs: int, nanos: int, more: int)
    requires
        total.nanos < NANOS_PER_SEC,
        0 <= secs,
        0 <= nanos <= more * NANOS_PER_SEC,
        total.secs + secs < u64::MAX,
    ensures
        plus(total, secs, nanos) != Sum::Overrun,
        plus(total, secs, nanos) matches Sum::Within(sum) ==> sum.nanos < NANOS_PER_SEC && sum.secs
            <= total.secs + secs + more + 1,
{
    let all = total.nanos + nanos;
    assert(all / (NANOS_PER_SEC as int) <= more + 1);
    assert(all <= (more + 1) * NANOS_PER_SEC);
}

/// A share of a size is at most the size.
proof fn lemma_share(numerator: int, denominator: int, size: int)
    by (nonlinear_arith)
    requires
        0 <= numerator <= denominator,
        0 < denominator,
        0 <= size,
    ensures
        0 <= numerator * size / denominator <= size,
{
}

/// A number with its unit adds less than two of the longest units more than it has units.
proof fn lemma_term(total: Total, whole: u64, fraction: Option<Fraction>, word: Seq<char>)
    requires
        total.nanos < NANOS_PER_SEC,
        fraction matches Some(f) ==> proper(f),
        total.secs + (whole + 2) * LONGEST < u64::MAX,
    ensures
        plus_term(total, whole, fraction, word) != Sum::Overrun,
        plus_term(total, whole, fraction, word) matches Sum::Within(sum) ==> sum.nanos
            < NANOS_PER_SEC && sum.secs <= total.secs + (whole + 2) * LONGEST,
{
    if let Some(unit) = unit_named(word) {
        let size = unit_size(unit);
        let secs = whole * size.0;
        let nanos = whole * size.1;
        assert(0 <= secs <= whole * LONGEST) by (nonlinear_arith)
            requires
                0 <= size.0 <= LONGEST,
                secs == whole * size.0,
        ;
        assert(0 <= nanos <= whole * NANOS_PER_SEC) by (nonlinear_arith)
            requires
                0 <= size.1 <= NANOS_PER_SEC,
                nanos == whole * size.1,
        ;
        let more: int = if size.1 == 0 {
            0
        } else {
            whole as int
        };
        assert(secs + more <= whole * LONGEST);
        assert(secs / 1 == secs && nanos / 1 == nanos);
        lemma_plus(total, secs, nanos, more);
        if let Sum::Within(sum) = plus_share(total, size, whole, 1) {
            if let (Some(f), Some(part)) = (fraction, fraction_size(unit)) {
                lemma_share(f.numerator as int, f.denominator as int, part.0 as int);
                lemma_share(f.numerator as int, f.denominator as int, part.1 as int);
                let secs = f.numerator * part.0 / (f.denominator as int);
                let nanos = f.numerator * part.1 / (f.denominator as int);
                lemma_plus(sum, secs, nanos, 60);
            }
        }
    }
}

/// A character that is a digit makes the reach at most ten times as long; another one does not
/// make it longer.
proof fn lemma_read_char(t: Seq<char>, i: int, place: Place, total: Total)
    requires
        0 <= i < t.len(),
        proper_place(place),
        total.nanos < NANOS_PER_SEC,
        reach(place, total) <= u64::MAX,
    ensures
        read_char(t, i, place, total) != Step::Overrun,
        read_char(t, i, place, total) matches Step::On(next, sum) ==> {
            &&& proper_place(next)
            &&& sum.nanos < NANOS_PER_SEC
            &&& reach(next, sum) + 2 * LONGEST <= if digit_value(t[i]) is Some {
                10 * (reach(place, total) + 2 * LONGEST)
            } else {
                reach(place, total) + 2 * LONGEST
            }
        },
{
    if let Place::Unit(n, f, from) = place {
        lemma_term(total, n, f, t.subrange(from as int, i));
    }
}

/// A sum that cannot reach the end with the digits that are left does not run over.
proof fn lemma_out_of_reach(t: Seq<char>, i: int, place: Place, total: Total)
    requires
        0 <= i <= t.len(),
        proper_place(place),
        total.nanos < NANOS_PER_SEC,
        (reach(place, total) + 2 * LONGEST) * power(digits_from(t, i)) <= u64::MAX,
    ensures
        !overruns_from(t, i, place, total),
    decreases t.len() - i,
{
    let left = digits_from(t, i);
    let now = reach(place, total) + 2 * LONGEST;
    lemma_power(left);
    assert(now <= now * power(left)) by (nonlinear_arith)
        requires
            power(left) >= 1,
            now >= 0,
    ;
    if i >= t.len() {
        if let Place::Unit(n, f, from) = place {
            lemma_term(total, n, f, t.subrange(from as int, t.len() as int));
        }
    } else {
        lemma_read_char(t, i, place, total);
        if let Step::On(next, sum) = read_char(t, i, place, total) {
            let then = reach(next, sum) + 2 * LONGEST;
            let rest = power(digits_from(t, i + 1));
            lemma_power(digits_from(t, i + 1));
            if digit_value(t[i]) is Some {
                assert(power(left) == 10 * rest);
                assert(then * rest <= now * power(left)) by (nonlinear_arith)
                    requires
                        then <= 10 * now,
                        power(left) == 10 * rest,
                        rest >= 1,
                ;
            } else {
                assert(then * rest <= now * rest) by (nonlinear_arith)
                    requires
                        then <= now,
                        rest >= 1,
                ;
            }
            lemma_out_of_reach(t, i + 1, next, sum);
        }
    }
}

proof fn lemma_power(n: nat)
    ensures
        power(n) >= 1,
        n <= 11 ==> power(n) <= 100_000_000_000,
    decreases n,
{
    if n > 0 {
        lemma_power((n - 1) as nat);
    }
    reveal_with_fuel(power, 12);
}

/// Texts of up to eleven digits do not run over, whatever their units: no duration of everyday
/// length does.
pub proof fn law_short_numbers_do_not_overrun(t: Seq<char>)
    requires
        digits_from(t, 0) <= 11,
    ensures
        !overruns(t),
{
    let start = Total { secs: 0, nanos: 0 };
    let now = reach(Place::Start, start) + 2 * LONGEST;
    let tens = power(digits_from(t, 0));
    lemma_power(digits_from(t, 0));
    assert(now * tens <= now * 100_000_000_000) by (nonlinear_arith)
        requires
            tens <= 100_000_000_000,
            now >= 0,
    ;
    lemma_out_of_reach(t, 0, Place::Start, start);
}

/// A word names a unit only where it is one of the words for that unit, and one that is a word for
/// a unit names one.
pub proof fn law_words_name_their_units(word: Seq<char>)
    ensures
        unit_named(word) == Some(Unit::Nanosecond) ==> word == "nanos"@ || word == "nsec"@
            || word == "ns"@,
        unit_named(word) == Some(Unit::Microsecond) ==> word == "usec"@ || word == "us"@
            || word == "\u{b5}s"@,
        unit_named(word) == Some(Unit::Millisecond) ==> word == "millis"@ || word == "msec"@
            || word == "ms"@,
        unit_named(word) == Some(Unit::Second) ==> word == "seconds"@ || word == "second"@
            || word == "secs"@ || word == "sec"@ || word == "s"@,
        unit_named(word) == Some(Unit::Minute) ==> word == "minutes"@ || word == "minute"@
            || word == "min"@ || word == "mins"@ || word == "m"@,
        unit_named(word) == Some(Unit::Hour) ==> word == "hours"@ || word == "hour"@
            || word == "hr"@ || word == "hrs"@ || word == "h"@,
        unit_named(word) == Some(Unit::Day) ==> word == "days"@ || word == "day"@ || word == "d"@,
        unit_named(word) == Some(Unit::Week) ==> word == "weeks"@ || word == "week"@
            || word == "wk"@ || word == "wks"@ || word == "w"@,
        unit_named(word) == Some(Unit::Month) ==> word == "months"@ || word == "month"@
            || word == "M"@,
        unit_named(word) == Some(Unit::Year) ==> word == "years"@ || word == "year"@
            || word == "yr"@ || word == "yrs"@ || word == "y"@,
        word == "nanos"@ || word == "nsec"@ || word == "ns"@ || word == "usec"@ || word == "us"@
            || word == "\u{b5}s"@ || word == "millis"@ || word == "msec"@ || word == "ms"@
            || word == "seconds"@ || word == "second"@ || word == "secs"@ || word == "sec"@
            || word == "s"@ || word == "minutes"@ || word == "minute"@ || word == "min"@
            || word == "mins"@ || word == "m"@ || word == "hours"@ || word == "hour"@
            || word == "hr"@ || word == "hrs"@ || word == "h"@ || word == "days"@ || word == "day"@
            || word == "d"@ || word == "weeks"@ || word == "week"@ || word == "wk"@
            || word == "wks"@ || word == "w"@ || word == "months"@ || word == "month"@
            || word == "M"@ || word == "years"@ || word == "year"@ || word == "yr"@
            || word == "yrs"@ || word == "y"@ ==> unit_named(word) is Some,
{
}

/// Each unit has its size: nanoseconds up to the millisecond, seconds from the second on. A month
/// is 30.44 days and a year 365.25. Fractions are counted in whole nanoseconds of a second and of
/// a minute, and of a nanosecond not at all.
pub proof fn law_units_have_their_sizes(unit: Unit)
    ensures
        ({
            let size = unit_size(unit);
            let whole = size.0 * NANOS_PER_SEC + size.1;
            &&& NANOS_PER_SEC == 1000 * 1000 * 1000
            &&& unit == Unit::Nanosecond ==> whole == 1
            &&& unit == Unit::Microsecond ==> whole == 1000
            &&& unit == Unit::Millisecond ==> whole == 1000 * 1000
            &&& unit == Unit::Second ==> whole == NANOS_PER_SEC
            &&& unit == Unit::Minute ==> whole == 60 * NANOS_PER_SEC
            &&& unit == Unit::Hour ==> whole == 60 * 60 * NANOS_PER_SEC
            &&& unit == Unit::Day ==> whole == 24 * 60 * 60 * NANOS_PER_SEC
            &&& unit == Unit::Week ==> whole == 7 * 24 * 60 * 60 * NANOS_PER_SEC
            &&& unit == Unit::Month ==> 100 * whole == 3044 * 24 * 60 * 60 * NANOS_PER_SEC
            &&& unit == Unit::Year ==> 100 * whole == 36525 * 24 * 60 * 60 * NANOS_PER_SEC
            &&& size.0 == 0 || size.1 == 0
            &&& fraction_size(unit) is None <==> unit == Unit::Nanosecond
            &&& fraction_size(unit) matches Some(part) ==> {
                &&& part.0 * NANOS_PER_SEC + part.1 == whole
                &&& part.0 == 0 <==> size.0 < 60 * 60
                &&& part.1 == 0 <==> size.0 >= 60 * 60
            }
        }),
{
}

/// An addition is exact: what comes out within the representable time is what went in, in
/// nanoseconds. It is refused only where the nanoseconds do not fit 64 bits or the sum is at
/// least 2^64 seconds.
pub proof fn law_sums_are_exact(total: Total, secs: nat, nanos: nat)
    requires
        total.nanos < NANOS_PER_SEC,
    ensures
        ({
            let whole = (total.secs + secs) * NANOS_PER_SEC + total.nanos + nanos;
            let sum = plus(total, secs as int, nanos as int);
            &&& sum matches Sum::Within(t) ==> t.nanos < NANOS_PER_SEC && t.secs * NANOS_PER_SEC
                + t.nanos == whole
            &&& sum == Sum::Overrun ==> whole == 0x1_0000_0000_0000_0000 * NANOS_PER_SEC
            &&& sum == Sum::Refused ==> total.nanos + nanos > u64::MAX || whole
                >= 0x1_0000_0000_0000_0000 * NANOS_PER_SEC
            &&& sum is Within ==> total.nanos + nanos <= u64::MAX
        }),
{
}

/// A share of a unit is exact too: what was added, times the denominator, is the unit times the
/// numerator. A share that is not whole is refused, and so is one of a multiple that does not fit
/// 64 bits.
pub proof fn law_shares_are_exact(total: Total, size: (u64, u64), numerator: u64, denominator: u64)
    requires
        total.nanos < NANOS_PER_SEC,
        denominator > 0,
    ensures
        plus_share(total, size, numerator, denominator) matches Sum::Within(sum) ==> (sum.secs
            * NANOS_PER_SEC + sum.nanos - total.secs * NANOS_PER_SEC - total.nanos) * denominator
            == numerator * size.0 * NANOS_PER_SEC + numerator * size.1,
        numerator * size.0 % (denominator as int) != 0 || numerator * size.1 % (denominator as int)
            != 0 ==> plus_share(total, size, numerator, denominator) == Sum::Refused,
        numerator * size.0 > u64::MAX || numerator * size.1 > u64::MAX ==> plus_share(
            total,
            size,
            numerator,
            denominator,
        ) == Sum::Refused,
        denominator == 1 && numerator * size.0 <= u64::MAX && numerator * size.1 <= u64::MAX
            ==> plus_share(total, size, numerator, denominator) == plus(
            total,
            numerator * size.0,
            numerator * size.1,
        ),
{
    let d = denominator as int;
    let secs = numerator * size.0;
    let nanos = numerator * size.1;
    if let Sum::Within(sum) = plus_share(total, size, numerator, denominator) {
        let q = secs / d;
        let r = nanos / d;
        assert(0 <= secs && 0 <= nanos) by (nonlinear_arith)
            requires
                secs == numerator * size.0,
                nanos == numerator * size.1,
        ;
        assert(0 <= q && 0 <= r && q * d == secs && r * d == nanos) by (nonlinear_arith)
            requires
                d > 0,
                0 <= secs,
                0 <= nanos,
                secs % d == 0,
                nanos % d == 0,
                q == secs / d,
                r == nanos / d,
        ;
        law_sums_are_exact(total, q as nat, r as nat);
        let added = sum.secs * NANOS_PER_SEC + sum.nanos - total.secs * NANOS_PER_SEC - total.nanos;
        assert(added == q * NANOS_PER_SEC + r);
        assert(added * d == secs * NANOS_PER_SEC + nanos) by (nonlinear_arith)
            requires
                added == q * NANOS_PER_SEC + r,
                q * d == secs,
                r * d == nanos,
        ;
    }
}

/// A number with its unit adds its whole units and then its fraction of one. A word that names no
/// unit and a fraction of a nanosecond are refused.
pub proof fn law_terms_add_whole_units_and_fractions(
    total: Total,
    whole: u64,
    fraction: Fraction,
    word: Seq<char>,
)
    ensures
        unit_named(word) is None ==> plus_term(total, whole, None, word) == Sum::Refused
            && plus_term(total, whole, Some(fraction), word) == Sum::Refused,
        unit_named(word) matches Some(unit) ==> {
            let units = plus_share(total, unit_size(unit), whole, 1);
            &&& plus_term(total, whole, None, word) == units
            &&& !(units is Within) ==> plus_term(total, whole, Some(fraction), word) == units
            &&& units is Within && unit == Unit::Nanosecond ==> plus_term(
                total,
                whole,
                Some(fraction),
                word,
            ) == Sum::Refused
            &&& units is Within && unit != Unit::Nanosecond ==> plus_term(
                total,
                whole,
                Some(fraction),
                word,
            ) == plus_share(
                units->Within_0,
                fraction_size(unit)->Some_0,
                fraction.numerator,
                fraction.denominator,
            )
        },
{
}

/// Digits have their values, and units are written with Latin letters and the micro sign. A digit
/// behind a number makes it ten times as large and adds its value, as long as that fits 64 bits.
pub proof fn law_characters_have_their_values(c: char, n: u64, d: u64)
    ensures
        d < 10 ==> digit_value(text::digit(d as nat)) == Some(d),
        digit_value(c) matches Some(v) ==> v < 10 && c == text::digit(v as nat),
        is_letter(c) <==> 65 <= c as int <= 90 || 97 <= c as int <= 122 || c as int == 181,
        with_digit(n, d) is Some <==> 10 * n + d < 0x1_0000_0000_0000_0000,
        with_digit(n, d) matches Some(m) ==> m == 10 * n + d,
{
}

/// Reading goes on with the sum of an addition, and stops where that runs over or is refused.
pub proof fn law_reading_goes_on_with_the_sum(total: Total, place: Place)
    ensures
        once_added(Sum::Within(total), place) == Step::On(place, total),
        once_added(Sum::Overrun, place) == Step::Overrun,
        once_added(Sum::Refused, place) == Step::Refused,
{
}

/// White space before a number and in one is passed over; behind a unit it ends the number, which
/// is added.
pub proof fn law_white_space_separates(
    t: Seq<char>,
    i: int,
    n: u64,
    f: Fraction,
    g: Option<Fraction>,
    from: usize,
    total: Total,
)
    requires
        text::white_space(t[i]),
    ensures
        read_char(t, i, Place::Start, total) == Step::On(Place::Start, total),
        read_char(t, i, Place::Whole(n), total) == Step::On(Place::Whole(n), total),
        read_char(t, i, Place::Fraction(n, f), total) == Step::On(Place::Fraction(n, f), total),
        read_char(t, i, Place::Unit(n, g, from), total) == match plus_term(
            total,
            n,
            g,
            t.subrange(from as int, i),
        ) {
            Sum::Within(sum) => Step::On(Place::Start, sum),
            Sum::Overrun => Step::Overrun,
            Sum::Refused => Step::Refused,
        },
{
}

/// A digit begins a number or goes on with it, before and behind the point; behind a unit it ends
/// the number before, which is added, and begins the next. Where the number does not fit 64 bits,
/// reading stops.
pub proof fn law_digits_make_numbers(
    t: Seq<char>,
    i: int,
    n: u64,
    f: Fraction,
    g: Option<Fraction>,
    from: usize,
    total: Total,
    d: u64,
)
    requires
        d < 10,
        t[i] == text::digit(d as nat),
    ensures
        read_char(t, i, Place::Start, total) == Step::On(Place::Whole(d), total),
        10 * n + d <= u64::MAX ==> read_char(t, i, Place::Whole(n), total) == Step::On(
            Place::Whole((10 * n + d) as u64),
            total,
        ),
        10 * n + d > u64::MAX ==> read_char(t, i, Place::Whole(n), total) == Step::Refused,
        10 * f.numerator + d <= u64::MAX && 10 * f.denominator <= u64::MAX ==> read_char(
            t,
            i,
            Place::Fraction(n, f),
            total,
        ) == Step::On(
            Place::Fraction(
                n,
                Fraction {
                    numerator: (10 * f.numerator + d) as u64,
                    denominator: (10 * f.denominator) as u64,
                },
            ),
            total,
        ),
        10 * f.numerator + d > u64::MAX || 10 * f.denominator > u64::MAX ==> read_char(
            t,
            i,
            Place::Fraction(n, f),
            total,
        ) == Step::Refused,
        read_char(t, i, Place::Unit(n, g, from), total) == match plus_term(
            total,
            n,
            g,
            t.subrange(from as int, i),
        ) {
            Sum::Within(sum) => Step::On(Place::Whole(d), sum),
            Sum::Overrun => Step::Overrun,
            Sum::Refused => Step::Refused,
        },
{
}

/// A letter begins the unit of a number, which ends with a digit where it has a point, or goes on
/// with it; there is no unit without a number.
pub proof fn law_letters_make_units(
    t: Seq<char>,
    i: int,
    n: u64,
    f: Fraction,
    g: Option<Fraction>,
    from: usize,
    total: Total,
)
    requires
        is_letter(t[i]),
    ensures
        read_char(t, i, Place::Start, total) == Step::Refused,
        read_char(t, i, Place::Whole(n), total) == Step::On(
            Place::Unit(n, None, i as usize),
            total,
        ),
        f.denominator > 1 ==> read_char(t, i, Place::Fraction(n, f), total) == Step::On(
            Place::Unit(n, Some(f), i as usize),
            total,
        ),
        f.denominator <= 1 ==> read_char(t, i, Place::Fraction(n, f), total) == Step::Refused,
        read_char(t, i, Place::Unit(n, g, from), total) == Step::On(
            Place::Unit(n, g, from),
            total,
        ),
{
}

/// A point stands behind the whole part of a number, and nowhere else. No other character stands
/// anywhere.
pub proof fn law_nothing_else_is_read(t: Seq<char>, i: int, place: Place, n: u64, total: Total)
    requires
        !is_letter(t[i]),
        !text::white_space(t[i]),
        !('0' <= t[i] <= '9'),
    ensures
        t[i] == '.' ==> read_char(t, i, Place::Whole(n), total) == Step::On(
            Place::Fraction(n, Fraction { numerator: 0, denominator: 1 }),
            total,
        ),
        t[i] != '.' || !(place is Whole) ==> read_char(t, i, place, total) == Step::Refused,
{
}

/// Reading begins before a number with nothing added, and goes on from character to character. At
/// the end, a number with its unit is added.
pub proof fn law_texts_are_read_through(t: Seq<char>, i: int, place: Place, total: Total)
    ensures
        overruns(t) == overruns_from(t, 0, Place::Start, Total { secs: 0, nanos: 0 }),
        0 <= i < t.len() ==> overruns_from(t, i, place, total) == match read_char(
            t,
            i,
            place,
            total,
        ) {
            Step::On(next, sum) => overruns_from(t, i + 1, next, sum),
            Step::Overrun => true,
            Step::Refused => false,
        },
        i >= t.len() ==> (overruns_from(t, i, place, total) <==> place is Unit && plus_term(
            total,
            place->Unit_0,
            place->Unit_1,
            t.subrange(place->Unit_2 as int, t.len() as int),
        ) == Sum::Overrun),
{
}

/// Reading the numeral of a number gives the number.
pub proof fn law_numerals_are_read(t: Seq<char>, i: int, n: nat, total: Total)
    requires
        n <= u64::MAX,
        0 <= i,
        i + text::decimal(n).len() <= t.len(),
        t.subrange(i, i + text::decimal(n).len()) == text::decimal(n),
    ensures
        overruns_from(t, i, Place::Start, total) == overruns_from(
            t,
            i + text::decimal(n).len(),
            Place::Whole(n as u64),
            total,
        ),
    decreases n,
{
    let numeral = text::decimal(n);
    if n < 10 {
        assert(t[i] == t.subrange(i, i + numeral.len())[0]);
        reveal_with_fuel(overruns_from, 2);
    } else {
        let rest = text::decimal(n / 10);
        assert(numeral == rest.push(text::digit(n % 10)));
        assert(t.subrange(i, i + rest.len()) =~= t.subrange(i, i + numeral.len()).drop_last());
        assert(numeral.drop_last() =~= rest);
        law_numerals_are_read(t, i, n / 10, total);
        let at = i + rest.len();
        assert(t[at] == t.subrange(i, i + numeral.len())[rest.len() as int]);
        assert(10 * (n / 10) + n % 10 == n);
        assert(digit_value(t[at]) == Some((n % 10) as u64));
        assert(read_char(t, at, Place::Whole((n / 10) as u64), total) == Step::On(
            Place::Whole(n as u64),
            total,
        ));
        reveal_with_fuel(overruns_from, 2);
    }
}

/// A numeral has no more digits than the number it is below as a power of ten.
proof fn lemma_numeral_length(n: nat, k: nat)
    requires
        k > 0,
        n < power(k),
    ensures
        text::decimal(n).len() <= k,
    decreases k,
{
    if n >= 10 {
        assert(power(k) == 10 * power((k - 1) as nat));
        if k == 1 {
            assert(power(0) == 1);
        }
        lemma_numeral_length(n / 10, (k - 1) as nat);
    }
}

/// The words for seconds and nanoseconds that are shortest name them.
proof fn lemma_short_words()
    ensures
        unit_named("s"@) == Some(Unit::Second),
        unit_named("ns"@) == Some(Unit::Nanosecond),
        "s"@ == seq!['s'],
        "ns"@ == seq!['n', 's'],
{
    reveal_strlit("nanos");
    reveal_strlit("nsec");
    reveal_strlit("ns");
    reveal_strlit("usec");
    reveal_strlit("us");
    reveal_strlit("\u{b5}s");
    reveal_strlit("millis");
    reveal_strlit("msec");
    reveal_strlit("ms");
    reveal_strlit("seconds");
    reveal_strlit("second");
    reveal_strlit("secs");
    reveal_strlit("sec");
    reveal_strlit("s");
    assert("s"@ =~= seq!['s']);
    assert("ns"@ =~= seq!['n', 's']);
    assert("nanos"@.len() != 1);
    assert("nsec"@.len() != 1);
    assert("ns"@.len() != 1);
    assert("usec"@.len() != 1);
    assert("us"@.len() != 1);
    assert("\u{b5}s"@.len() != 1);
    assert("millis"@.len() != 1);
    assert("msec"@.len() != 1);
    assert("ms"@.len() != 1);
}

/// A text of seconds and nanoseconds runs over the end for one pair of numbers only: the most
/// seconds there are and one full second of nanoseconds.
pub proof fn law_only_the_end_runs_over(secs: u64, nanos: u64)
    ensures
        ({
            let t = text::decimal(secs as nat) + seq!['s', ' '] + text::decimal(nanos as nat) + seq![
                'n',
                's',
            ];
            overruns(t) <==> secs == u64::MAX && nanos == 1_000_000_000
        }),
{
    let a = text::decimal(secs as nat);
    let b = text::decimal(nanos as nat);
    let t = a + seq!['s', ' '] + b + seq!['n', 's'];
    let zero = Total { secs: 0, nanos: 0 };
    lemma_short_words();
    assert(power(20) > u64::MAX) by {
        reveal_with_fuel(power, 21);
    }
    lemma_numeral_length(secs as nat, 20);
    lemma_numeral_length(nanos as nat, 20);
    assert(t.subrange(0, a.len() as int) =~= a);
    law_numerals_are_read(t, 0, secs as nat, zero);
    let i = a.len() as int;
    assert(t[i] == 's' && t[i + 1] == ' ');
    assert(t.subrange(i, i + 1) =~= "s"@);
    let whole = Total { secs, nanos: 0 };
    assert(secs * 1 == secs && secs * 0 == 0);
    assert(plus_term(zero, secs, None, "s"@) == Sum::Within(whole));
    let j = i + 2;
    assert(read_char(t, i, Place::Whole(secs), zero) == Step::On(
        Place::Unit(secs, None, i as usize),
        zero,
    ));
    assert(read_char(t, i + 1, Place::Unit(secs, None, i as usize), zero) == Step::On(
        Place::Start,
        whole,
    ));
    assert(overruns(t) == overruns_from(t, j, Place::Start, whole)) by {
        law_texts_are_read_through(t, i, Place::Whole(secs), zero);
        law_texts_are_read_through(t, i + 1, Place::Unit(secs, None, i as usize), zero);
    }
    assert(t.subrange(j, j + b.len()) =~= b);
    law_numerals_are_read(t, j, nanos as nat, whole);
    let k = j + b.len();
    assert(t[k] == 'n' && t[k + 1] == 's');
    assert(t.subrange(k, k + 2) =~= "ns"@);
    law_texts_are_read_through(t, k, Place::Whole(nanos), whole);
    law_texts_are_read_through(t, k + 1, Place::Unit(nanos, None, k as usize), whole);
    law_texts_are_read_through(t, k + 2, Place::Unit(nanos, None, k as usize), whole);
    assert(nanos * 1 == nanos && nanos * 0 == 0);
    law_overrun_is_the_end(whole, 0, nanos as nat);
}

} // verus!
