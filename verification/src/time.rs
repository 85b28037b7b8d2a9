//! Points in time and spans of time.
//!
//! A [`Timestamp`] holds what chrono's `DateTime<Utc>` holds, a [`Duration`]
//! what the standard library's does. Calendar arithmetic is chrono's, the
//! notation of durations is humantime's.

use vstd::prelude::*;
use vstd::string::*;

use crate::text::{decimal, number_of, same};

verus! {

/// Nanoseconds in a second.
pub const NANOS_PER_SEC: u32 = 1_000_000_000;

/// Last second that chrono's calendar can represent, the end of the year
/// 262142.
pub const MAX_SECS: i64 = 8_210_266_876_799;

/// First second that chrono's calendar can represent, the start of the year
/// -262143.
pub const MIN_SECS: i64 = -8_334_601_228_800;

/// Seconds that every chrono time delta can hold.
pub const MAX_DELTA_SECS: u64 = 9_223_372_036_854_774;

// --- Durations

/// A span of time.
#[derive(Clone, Copy, Debug, PartialEq, Eq, Structural)]
pub struct Duration {
    pub secs: u64,
    /// Below one second.
    pub nanos: u32,
}

impl Duration {
    /// The nanoseconds are less than a second.
    pub open spec fn valid(self) -> bool {
        self.nanos < NANOS_PER_SEC
    }

    /// The length in nanoseconds.
    pub open spec fn total(self) -> int {
        self.secs * NANOS_PER_SEC + self.nanos
    }

    /// A span of whole seconds.
    pub fn from_secs(secs: u64) -> (r: Duration)
        ensures
            r == (Duration { secs, nanos: 0 }),
            r.valid(),
    {
        Duration { secs, nanos: 0 }
    }

    /// Whether the span is empty.
    pub fn is_zero(&self) -> (r: bool)
        ensures
            r == (self.total() == 0),
    {
        self.secs == 0 && self.nanos == 0
    }

    /// Whether the span is shorter than `other`.
    pub fn shorter_than(&self, other: &Duration) -> (r: bool)
        requires
            self.valid(),
            other.valid(),
        ensures
            r == (self.total() < other.total()),
    {
        self.secs < other.secs || (self.secs == other.secs && self.nanos < other.nanos)
    }

    /// The shorter of two spans.
    pub fn shortest(self, other: Duration) -> (r: Duration)
        requires
            self.valid(),
            other.valid(),
        ensures
            r == (if other.total() < self.total() {
                other
            } else {
                self
            }),
    {
        if other.shorter_than(&self) {
            other
        } else {
            self
        }
    }

    /// The time that has passed from `earlier` to `self`, two readings of a
    /// clock; nothing if the clock has not moved on.
    pub fn since(&self, earlier: &Duration) -> (r: Duration)
        requires
            self.valid(),
            earlier.valid(),
        ensures
            r.valid(),
            r.total() == (if self.total() > earlier.total() {
                self.total() - earlier.total()
            } else {
                0
            }),
    {
        if !earlier.shorter_than(self) {
            Duration { secs: 0, nanos: 0 }
        } else if self.nanos >= earlier.nanos {
            Duration { secs: self.secs - earlier.secs, nanos: self.nanos - earlier.nanos }
        } else {
            Duration {
                secs: self.secs - earlier.secs - 1,
                nanos: self.nanos + NANOS_PER_SEC - earlier.nanos,
            }
        }
    }
}

// --- Notation

/// The nanoseconds that humantime counts for one of a unit; none for a word
/// that is no unit.
pub open spec fn unit_nanos(unit: Seq<char>) -> nat {
    if unit == "nanos"@ || unit == "nsec"@ || unit == "ns"@ {
        1
    } else if unit == "usec"@ || unit == "us"@ || unit == "\u{b5}s"@ {
        1_000
    } else if unit == "millis"@ || unit == "msec"@ || unit == "ms"@ {
        1_000_000
    } else if unit == "seconds"@ || unit == "second"@ || unit == "secs"@ || unit == "sec"@ || unit
        == "s"@ {
        1_000_000_000
    } else if unit == "minutes"@ || unit == "minute"@ || unit == "min"@ || unit == "mins"@ || unit
        == "m"@ {
        60_000_000_000
    } else if unit == "hours"@ || unit == "hour"@ || unit == "hr"@ || unit == "hrs"@ || unit
        == "h"@ {
        3_600_000_000_000
    } else if unit == "days"@ || unit == "day"@ || unit == "d"@ {
        86_400_000_000_000
    } else if unit == "weeks"@ || unit == "week"@ || unit == "wk"@ || unit == "wks"@ || unit
        == "w"@ {
        604_800_000_000_000
    } else if unit == "months"@ || unit == "month"@ || unit == "M"@ {
        2_630_016_000_000_000
    } else if unit == "years"@ || unit == "year"@ || unit == "yr"@ || unit == "yrs"@ || unit
        == "y"@ {
        31_557_600_000_000_000
    } else {
        0
    }
}

/// Whether a character is one of the ten decimal digits.
pub open spec fn is_decimal_digit(c: char) -> bool {
    '0' <= c && c <= '9'
}

/// Whether a character can be part of the name of a unit.
pub open spec fn is_unit_letter(c: char) -> bool {
    ('a' <= c && c <= 'z') || ('A' <= c && c <= 'Z') || c == '\u{b5}'
}

/// The length in nanoseconds of `number` of a unit, with a fraction of
/// `numerator` by `denominator` on top.
pub open spec fn span_nanos(number: nat, numerator: nat, denominator: nat, unit: Seq<char>) -> nat {
    number * unit_nanos(unit) + (numerator * unit_nanos(unit)) / denominator
}

/// The spans of a text such as `1h 30m`, read from its start: a number, a
/// fraction if there is one, and a unit each, the next number beginning a new
/// one.
#[verifier::ext_equal]
pub struct Spans {
    /// What the spans before the last one add up to, in nanoseconds.
    pub before: nat,
    /// Whether there are any.
    pub several: bool,
    /// The number of the last span, without its fraction.
    pub number: nat,
    /// Whether it has a fraction.
    pub fraction: bool,
    /// The digits of the fraction, as a number.
    pub numerator: nat,
    /// The power of ten that the digits are counted in.
    pub denominator: nat,
    /// The unit of the last span, as far as it is there.
    pub unit: Seq<char>,
    /// Whether the unit is complete.
    pub complete: bool,
    /// Whether the text is refused by now: a number, a fraction or the sum
    /// has grown too large, or a word is no unit.
    pub refused: bool,
    /// Whether a span after the first one has filled up the last second
    /// below 2^64.
    pub filled: bool,
}

impl Spans {
    /// No text read yet.
    pub open spec fn start() -> Spans {
        Spans {
            before: 0,
            several: false,
            number: 0,
            fraction: false,
            numerator: 0,
            denominator: 1,
            unit: Seq::empty(),
            complete: false,
            refused: false,
            filled: false,
        }
    }

    /// What the spans add up to without the fraction of the last one.
    pub open spec fn whole(self) -> nat {
        self.before + self.number * unit_nanos(self.unit)
    }

    /// What the spans add up to.
    pub open spec fn total(self) -> nat {
        self.before + span_nanos(self.number, self.numerator, self.denominator, self.unit)
    }

    /// Whether a span after the first one fills up the last second below
    /// 2^64, be it the last one: with its number, if that counts less than
    /// seconds, or with its fraction.
    pub open spec fn fills(self) -> bool {
        self.filled || (self.several && !self.refused && ((unit_nanos(self.unit) < NANOS_PER_SEC
            && fills_up(self.before, self.whole())) || fills_up(self.whole(), self.total())))
    }

    /// The spans with one more character of the text.
    pub open spec fn then_char(self, c: char) -> Spans {
        let value: nat = (c as nat - '0' as nat) as nat;
        if is_decimal_digit(c) && self.unit.len() > 0 {
            Spans {
                before: self.total(),
                several: true,
                number: value,
                refused: self.refused || self.total() >= SPAN_LIMIT || unit_nanos(self.unit) == 0,
                filled: self.fills(),
                ..Spans::start()
            }
        } else if is_decimal_digit(c) && !self.fraction {
            Spans {
                number: self.number * 10 + value,
                refused: self.refused || self.number * 10 + value > u64::MAX,
                ..self
            }
        } else if is_decimal_digit(c) {
            Spans {
                numerator: self.numerator * 10 + value,
                denominator: self.denominator * 10,
                refused: self.refused || self.denominator * 10 > u64::MAX,
                ..self
            }
        } else if is_unit_letter(c) && !self.complete {
            Spans { unit: self.unit.push(c), ..self }
        } else if c == '.' && self.unit.len() == 0 {
            Spans { fraction: true, ..self }
        } else {
            Spans { complete: self.complete || self.unit.len() > 0, ..self }
        }
    }
}

/// The spans of `text`.
pub open spec fn spans(text: Seq<char>) -> Spans
    decreases text.len(),
{
    if text.len() == 0 {
        Spans::start()
    } else {
        spans(text.drop_last()).then_char(text.last())
    }
}

/// The shortest span, in nanoseconds, whose seconds do not fit in 64 bits.
pub const SPAN_LIMIT: u128 = 18_446_744_073_709_551_616_000_000_000;

/// Whether a sum in nanoseconds that lies within the last second below 2^64
/// grows to 2^64 seconds sharp.
pub open spec fn fills_up(from: nat, to: nat) -> bool {
    SPAN_LIMIT - NANOS_PER_SEC <= from < SPAN_LIMIT && to == SPAN_LIMIT
}

/// Whether `text` can be handed to humantime: whether no span after the first
/// one fills up the last second below 2^64.
pub open spec fn readable(text: Seq<char>) -> bool {
    !spans(text).fills()
}

fn digit_value(c: char) -> (r: u64)
    requires
        is_decimal_digit(c),
    ensures
        r == c as nat - '0' as nat,
        r < 10,
{
    match c {
        '0' => 0,
        '1' => 1,
        '2' => 2,
        '3' => 3,
        '4' => 4,
        '5' => 5,
        '6' => 6,
        '7' => 7,
        '8' => 8,
        _ => 9,
    }
}

fn nanos_of_unit(unit: &str) -> (r: u64)
    ensures
        r == unit_nanos(unit@),
{
    if same(unit, "nanos") || same(unit, "nsec") || same(unit, "ns") {
        1
    } else if same(unit, "usec") || same(unit, "us") || same(unit, "\u{b5}s") {
        1_000
    } else if same(unit, "millis") || same(unit, "msec") || same(unit, "ms") {
        1_000_000
    } else if same(unit, "seconds") || same(unit, "second") || same(unit, "secs") || same(
        unit,
        "sec",
    ) || same(unit, "s") {
        1_000_000_000
    } else if same(unit, "minutes") || same(unit, "minute") || same(unit, "min") || same(
        unit,
        "mins",
    ) || same(unit, "m") {
        60_000_000_000
    } else if same(unit, "hours") || same(unit, "hour") || same(unit, "hr") || same(unit, "hrs")
        || same(unit, "h") {
        3_600_000_000_000
    } else if same(unit, "days") || same(unit, "day") || same(unit, "d") {
        86_400_000_000_000
    } else if same(unit, "weeks") || same(unit, "week") || same(unit, "wk") || same(unit, "wks")
        || same(unit, "w") {
        604_800_000_000_000
    } else if same(unit, "months") || same(unit, "month") || same(unit, "M") {
        2_630_016_000_000_000
    } else if same(unit, "years") || same(unit, "year") || same(unit, "yr") || same(unit, "yrs")
        || same(unit, "y") {
        31_557_600_000_000_000
    } else {
        0
    }
}

proof fn filled_stays(text: Seq<char>, i: int)
    requires
        0 <= i <= text.len(),
        spans(text.take(i)).filled,
    ensures
        spans(text).filled,
    decreases text.len() - i,
{
    if i < text.len() {
        assert(text.take(i + 1).drop_last() =~= text.take(i));
        filled_stays(text, i + 1);
    } else {
        assert(text.take(i) =~= text);
    }
}

proof fn refusals_stay(text: Seq<char>, i: int)
    requires
        0 <= i <= text.len(),
        spans(text.take(i)).refused,
        !spans(text.take(i)).filled,
    ensures
        spans(text).refused,
        !spans(text).filled,
    decreases text.len() - i,
{
    if i < text.len() {
        assert(text.take(i + 1).drop_last() =~= text.take(i));
        refusals_stay(text, i + 1);
    } else {
        assert(text.take(i) =~= text);
    }
}

/// The spans of a text as they are counted until it is refused.
struct Tally {
    before: u128,
    several: bool,
    number: u64,
    fraction: bool,
    numerator: u64,
    denominator: u64,
    unit: String,
    complete: bool,
}

impl Tally {
    spec fn counts(self, spans: Spans) -> bool {
        &&& self.before == spans.before && self.before < SPAN_LIMIT
        &&& self.several == spans.several
        &&& self.number == spans.number
        &&& self.fraction == spans.fraction
        &&& self.numerator == spans.numerator && self.numerator < self.denominator
        &&& self.denominator == spans.denominator
        &&& self.unit@ == spans.unit
        &&& self.complete == spans.complete
        &&& !spans.refused
        &&& !spans.filled
    }

    /// What the spans add up to, and whether they fill up the last second.
    fn sum(&self, Ghost(spans): Ghost<Spans>) -> (r: (u128, bool))
        requires
            self.counts(spans),
        ensures
            r.0 == spans.total(),
            r.1 == spans.fills(),
    {
        let nanos: u64 = nanos_of_unit(self.unit.as_str());
        proof {
            let (n, w, a, d) = (self.number, nanos, self.numerator, self.denominator);
            assert(n * w <= 0xffff_ffff_ffff_ffff * 31_557_600_000_000_000) by (nonlinear_arith)
                requires
                    n <= 0xffff_ffff_ffff_ffff,
                    w <= 31_557_600_000_000_000,
            ;
            assert(a * w <= 0xffff_ffff_ffff_ffff * 31_557_600_000_000_000) by (nonlinear_arith)
                requires
                    a <= 0xffff_ffff_ffff_ffff,
                    w <= 31_557_600_000_000_000,
            ;
            assert((a * w) / (d as int) <= a * w) by (nonlinear_arith)
                requires
                    d > 0,
                    a >= 0,
                    w >= 0,
            ;
        }
        let whole: u128 = self.before + self.number as u128 * nanos as u128;
        let part: u128 = self.numerator as u128 * nanos as u128 / self.denominator as u128;
        let total: u128 = whole + part;
        let last: u128 = SPAN_LIMIT - NANOS_PER_SEC as u128;
        let by_number = nanos < NANOS_PER_SEC as u64 && self.before >= last && whole == SPAN_LIMIT;
        let by_fraction = whole >= last && whole < SPAN_LIMIT && total == SPAN_LIMIT;
        (total, self.several && (by_number || by_fraction))
    }
}

/// Whether `text` can be handed to humantime: whether no span after the first
/// one fills up the last second below 2^64.
pub fn is_readable(text: &str) -> (r: bool)
    ensures
        r == readable(text@),
{
    let n: usize = text.unicode_len();
    let mut i: usize = 0;
    let mut tally = Tally {
        before: 0,
        several: false,
        number: 0,
        fraction: false,
        numerator: 0,
        denominator: 1,
        unit: String::new(),
        complete: false,
    };
    proof {
        assert(text@.take(0) =~= Seq::<char>::empty());
        assert(tally.unit@ =~= Seq::<char>::empty());
    }
    while i < n
        invariant
            i <= n,
            n == text@.len(),
            tally.counts(spans(text@.take(i as int))),
        decreases n - i,
    {
        let ghost now = spans(text@.take(i as int));
        let c = text.get_char(i);
        proof {
            assert(text@.take(i + 1).drop_last() =~= text@.take(i as int));
            assert(spans(text@.take(i + 1)) == now.then_char(c));
        }
        let digit = '0' <= c && c <= '9';
        let letter = ('a' <= c && c <= 'z') || ('A' <= c && c <= 'Z') || c == '\u{b5}';
        let started = tally.unit.as_str().unicode_len() > 0;
        if digit && started {
            let (total, fills) = tally.sum(Ghost(now));
            if fills {
                proof {
                    filled_stays(text@, i + 1);
                }
                return false;
            }
            if total >= SPAN_LIMIT || nanos_of_unit(tally.unit.as_str()) == 0 {
                proof {
                    refusals_stay(text@, i + 1);
                }
                return true;
            }
            tally = Tally {
                before: total,
                several: true,
                number: digit_value(c),
                fraction: false,
                numerator: 0,
                denominator: 1,
                unit: String::new(),
                complete: false,
            };
            proof {
                assert(tally.unit@ =~= Seq::<char>::empty());
            }
        } else if digit && !tally.fraction {
            let number: u128 = tally.number as u128 * 10 + digit_value(c) as u128;
            if number > u64::MAX as u128 {
                proof {
                    refusals_stay(text@, i + 1);
                }
                return true;
            }
            tally.number = number as u64;
        } else if digit {
            let denominator: u128 = tally.denominator as u128 * 10;
            if denominator > u64::MAX as u128 {
                proof {
                    refusals_stay(text@, i + 1);
                }
                return true;
            }
            tally.numerator = tally.numerator * 10 + digit_value(c);
            tally.denominator = denominator as u64;
        } else if letter && !tally.complete {
            tally.unit.push(c);
        } else if c == '.' && !started {
            tally.fraction = true;
        } else {
            tally.complete = tally.complete || started;
        }
        i = i + 1;
    }
    proof {
        assert(text@.take(i as int) =~= text@);
    }
    let (_, fills) = tally.sum(Ghost(spans(text@)));
    !fills
}

/// What humantime reads in a text: seconds and nanoseconds, or why the text
/// is no duration.
pub uninterp spec fn parsed_duration(text: Seq<char>) -> Result<(u64, u32), Seq<char>>;

/// `humantime::parse_duration` reads e.g. `1h 30m`; its result, or the text
/// of its error, is a function of the input. It panics only where the sum so
/// far has `u64::MAX` seconds and the nanoseconds of a later span, or of a
/// fraction, make exactly one second more: not admitted here. Anything else
/// that is too large it answers with an error. The nanoseconds it returns are
/// less than a second.
#[verifier::external_body]
pub(crate) fn parse_duration(text: &str) -> (r: Result<Duration, String>)
    requires
        readable(text@),
    ensures
        match r {
            Ok(d) => parsed_duration(text@) == Ok::<(u64, u32), Seq<char>>((d.secs, d.nanos))
                && d.valid(),
            Err(e) => parsed_duration(text@) == Err::<(u64, u32), Seq<char>>(e@),
        },
{
    match humantime::parse_duration(text) {
        Ok(d) => Ok(Duration { secs: d.as_secs(), nanos: d.subsec_nanos() }),
        Err(e) => Err(e.to_string()),
    }
}

/// `humantime::format_duration` of whole seconds, which writes less than a
/// minute as their number and the unit `s`.
#[verifier::external_body]
pub(crate) fn format_seconds(secs: u64) -> (r: String)
    requires
        secs < 60,
    ensures
        r@ == decimal(secs as nat) + "s"@,
{
    humantime::format_duration(std::time::Duration::from_secs(secs)).to_string()
}

/// How a duration is written as a decimal fraction of seconds, e.g. `0.5`.
pub uninterp spec fn fractional_seconds(secs: u64, nanos: u32) -> Seq<char>;

/// The display of the standard library's `Duration::as_secs_f64`: the
/// shortest decimal notation of the nearest binary fraction. It is a
/// function of the duration.
#[verifier::external_body]
pub(crate) fn format_fraction(duration: Duration) -> (r: String)
    requires
        duration.valid(),
    ensures
        r@ == fractional_seconds(duration.secs, duration.nanos),
{
    format!("{}", std::time::Duration::new(duration.secs, duration.nanos).as_secs_f64())
}

// --- Timestamps

/// A point in time in UTC.
#[derive(Clone, Copy, Debug, PartialEq, Eq, Structural)]
pub struct Timestamp {
    /// Seconds since the start of 1970.
    pub secs: i64,
    /// Below one second, or below two in a leap second, which counts as part
    /// of the second before it.
    pub nanos: u32,
}

/// The second of the day.
pub open spec fn second_of_day(secs: int) -> int {
    secs % 86_400
}

/// The time from `earlier` to `later` in nanoseconds, negative if they are
/// the other way round. A leap second is counted when it lies between the
/// two times of day.
pub open spec fn elapsed(later: Timestamp, earlier: Timestamp) -> int {
    let leap: int = if second_of_day(later.secs as int) > second_of_day(earlier.secs as int)
        && earlier.is_leap() {
        1
    } else if second_of_day(later.secs as int) < second_of_day(earlier.secs as int)
        && later.is_leap() {
        -1
    } else {
        0
    };
    (later.secs - earlier.secs + leap) * NANOS_PER_SEC + later.nanos - earlier.nanos
}

/// The seconds of the point `span` after `start`.
pub open spec fn later_secs(start: Timestamp, span: Duration) -> int {
    if stays_leap(start, span) {
        start.secs as int
    } else {
        start.secs + span.secs + (start.nanos % NANOS_PER_SEC + span.nanos) / (NANOS_PER_SEC as int)
    }
}

/// The nanoseconds of the point `span` after `start`.
pub open spec fn later_nanos(start: Timestamp, span: Duration) -> int {
    if stays_leap(start, span) {
        start.nanos + span.nanos
    } else {
        (start.nanos % NANOS_PER_SEC + span.nanos) % (NANOS_PER_SEC as int)
    }
}

/// Whether `span` ends within the leap second that it starts in.
pub open spec fn stays_leap(start: Timestamp, span: Duration) -> bool {
    start.is_leap() && span.secs == 0 && start.nanos + span.nanos < 2 * NANOS_PER_SEC
}

/// The point `span` after `start`.
pub open spec fn later(start: Timestamp, span: Duration) -> Timestamp {
    Timestamp { secs: later_secs(start, span) as i64, nanos: later_nanos(start, span) as u32 }
}

impl Timestamp {
    /// The timestamp lies in chrono's calendar.
    pub open spec fn valid(self) -> bool {
        &&& MIN_SECS <= self.secs <= MAX_SECS
        &&& self.nanos < 2 * NANOS_PER_SEC
        &&& self.is_leap() ==> self.secs % 60 == 59
    }

    /// The timestamp lies in a leap second.
    pub open spec fn is_leap(self) -> bool {
        self.nanos >= NANOS_PER_SEC
    }

    /// Nanoseconds since the start of 1970.
    pub open spec fn total(self) -> int {
        self.secs * NANOS_PER_SEC + self.nanos
    }

    /// The order of time.
    pub open spec fn before(self, other: Timestamp) -> bool {
        self.secs < other.secs || (self.secs == other.secs && self.nanos < other.nanos)
    }

    /// Whether the timestamp lies before `other`.
    pub fn is_before(&self, other: &Timestamp) -> (r: bool)
        ensures
            r == self.before(*other),
    {
        self.secs < other.secs || (self.secs == other.secs && self.nanos < other.nanos)
    }
}

/// The subtraction of chrono's `DateTime<Utc>`: the time between two points,
/// as whole seconds and the remaining nanoseconds, both of the same sign.
#[verifier::external_body]
fn time_between(later: Timestamp, earlier: Timestamp) -> (r: (i64, i32))
    requires
        later.valid(),
        earlier.valid(),
    ensures
        r.0 * NANOS_PER_SEC + r.1 == elapsed(later, earlier),
        -NANOS_PER_SEC < r.1 < NANOS_PER_SEC,
        r.0 > 0 ==> r.1 >= 0,
        r.0 < 0 ==> r.1 <= 0,
{
    let end = chrono::DateTime::from_timestamp(later.secs, later.nanos).unwrap();
    let start = chrono::DateTime::from_timestamp(earlier.secs, earlier.nanos).unwrap();
    let delta = end - start;
    (delta.num_seconds(), delta.subsec_nanos())
}

/// The multiplication of chrono's `TimeDelta` by a number: exact, for a
/// product that it can hold.
#[verifier::external_body]
fn multiply(span: Duration, by: i32) -> (r: Duration)
    requires
        span.valid(),
        span.secs <= MAX_DELTA_SECS,
        0 <= by <= 100,
    ensures
        r.valid(),
        r.total() == span.total() * by,
{
    let delta = chrono::TimeDelta::new(span.secs as i64, span.nanos).unwrap() * by;
    Duration { secs: delta.num_seconds() as u64, nanos: delta.subsec_nanos() as u32 }
}

/// The division of chrono's `TimeDelta` by a positive number: seconds and
/// nanoseconds are divided apart, the seconds left over are carried, and
/// each quotient is rounded down.
#[verifier::external_body]
fn divide(span: Duration, by: i32) -> (r: Duration)
    requires
        span.valid(),
        span.secs <= MAX_DELTA_SECS,
        by > 0,
    ensures
        r.valid(),
        r.secs == span.secs as int / by as int,
        r.nanos == span.nanos as int / by as int + (span.secs as int % by as int) * NANOS_PER_SEC
            / by as int,
{
    let delta = chrono::TimeDelta::new(span.secs as i64, span.nanos).unwrap() / by;
    Duration { secs: delta.num_seconds() as u64, nanos: delta.subsec_nanos() as u32 }
}

/// The addition of chrono's `TimeDelta` to a `DateTime<Utc>`, for a sum that
/// lies in its calendar.
#[verifier::external_body]
fn plus(start: Timestamp, span: Duration) -> (r: Timestamp)
    requires
        start.valid(),
        span.valid(),
        span.secs <= MAX_DELTA_SECS,
        later_secs(start, span) <= MAX_SECS,
    ensures
        r == later(start, span),
{
    let end = chrono::DateTime::from_timestamp(start.secs, start.nanos).unwrap()
        + chrono::TimeDelta::new(span.secs as i64, span.nanos).unwrap();
    Timestamp { secs: end.timestamp(), nanos: end.timestamp_subsec_nanos() }
}

// --- Renewal

/// The lifetime of a credential in nanoseconds; none if it expires before it
/// is issued.
pub open spec fn lifetime(issued_at: Timestamp, expires_at: Timestamp) -> int {
    if elapsed(expires_at, issued_at) > 0 {
        elapsed(expires_at, issued_at)
    } else {
        0
    }
}

/// Two thirds of a number of nanoseconds, as chrono rounds them.
pub open spec fn two_thirds(nanos: int) -> Duration {
    let secs: int = (2 * nanos) / (NANOS_PER_SEC as int);
    let rest: int = (2 * nanos) % (NANOS_PER_SEC as int);
    Duration {
        secs: (secs / 3) as u64,
        nanos: (rest / 3 + (secs % 3) * NANOS_PER_SEC / 3) as u32,
    }
}

/// When a credential is due for renewal.
pub open spec fn renewal(issued_at: Timestamp, expires_at: Timestamp) -> Timestamp {
    later(issued_at, two_thirds(lifetime(issued_at, expires_at)))
}

/// Whether the time of renewal lies in chrono's calendar.
pub open spec fn renewal_in_calendar(issued_at: Timestamp, expires_at: Timestamp) -> bool {
    later_secs(issued_at, two_thirds(lifetime(issued_at, expires_at))) <= MAX_SECS
}

/// The two thirds of a credential's lifetime after which it is renewed.
fn two_thirds_of_lifetime(issued_at: Timestamp, expires_at: Timestamp) -> (r: Duration)
    requires
        issued_at.valid(),
        expires_at.valid(),
    ensures
        r.valid(),
        r.secs <= MAX_DELTA_SECS,
        r == two_thirds(lifetime(issued_at, expires_at)),
{
    let (secs, nanos) = time_between(expires_at, issued_at);
    let span = if secs < 0 || nanos < 0 {
        Duration { secs: 0, nanos: 0 }
    } else {
        Duration { secs: secs as u64, nanos: nanos as u32 }
    };
    assert(span.total() == lifetime(issued_at, expires_at));
    divide(multiply(span, 2), 3)
}

/// Whether [`renewal_time`] is defined: whether the time of renewal lies in
/// the calendar.
pub fn has_renewal_time(issued_at: Timestamp, expires_at: Timestamp) -> (r: bool)
    requires
        issued_at.valid(),
        expires_at.valid(),
    ensures
        r == renewal_in_calendar(issued_at, expires_at),
{
    let span = two_thirds_of_lifetime(issued_at, expires_at);
    if issued_at.nanos >= NANOS_PER_SEC && span.secs == 0 && issued_at.nanos + span.nanos < 2
        * NANOS_PER_SEC {
        return true;
    }
    let carry: i64 = if issued_at.nanos % NANOS_PER_SEC + span.nanos >= NANOS_PER_SEC {
        1
    } else {
        0
    };
    issued_at.secs + span.secs as i64 + carry <= MAX_SECS
}

/// Renew after two thirds of the credential lifetime, so that a zapp outage
/// of up to a third of the lifetime goes unnoticed.
pub fn renewal_time(issued_at: Timestamp, expires_at: Timestamp) -> (r: Timestamp)
    requires
        issued_at.valid(),
        expires_at.valid(),
        renewal_in_calendar(issued_at, expires_at),
    ensures
        r == renewal(issued_at, expires_at),
{
    plus(issued_at, two_thirds_of_lifetime(issued_at, expires_at))
}

// --- Laws

proof fn one_span_so_far(text: Seq<char>)
    requires
        forall|i: int, j: int|
            0 <= i < j < text.len() && is_unit_letter(#[trigger] text[i]) ==> !is_decimal_digit(
                #[trigger] text[j],
            ),
    ensures
        !spans(text).several,
        !spans(text).filled,
        spans(text).unit.len() > 0 ==> exists|i: int|
            0 <= i < text.len() && is_unit_letter(#[trigger] text[i]),
    decreases text.len(),
{
    if text.len() > 0 {
        let rest = text.drop_last();
        one_span_so_far(rest);
        if spans(rest).unit.len() > 0 {
            let i = choose|i: int| 0 <= i < rest.len() && is_unit_letter(#[trigger] rest[i]);
            assert(text[i] == rest[i]);
            assert(!is_decimal_digit(text[text.len() - 1]));
        }
        if is_unit_letter(text.last()) {
            assert(is_unit_letter(text[text.len() - 1]));
        }
    }
}

/// A text of one span, in which no digit comes after a letter, can be handed
/// to humantime however large its number is.
pub proof fn one_span_is_readable(text: Seq<char>)
    requires
        forall|i: int, j: int|
            0 <= i < j < text.len() && is_unit_letter(#[trigger] text[i]) ==> !is_decimal_digit(
                #[trigger] text[j],
            ),
    ensures
        readable(text),
{
    one_span_so_far(text);
}

/// What chrono makes of two thirds of a span is short of them by less than
/// two nanoseconds and never beyond them.
#[verifier::spinoff_prover]
#[verifier::rlimit(80)]
pub proof fn two_thirds_are_two_thirds(nanos: int)
    requires
        0 <= nanos <= MAX_DELTA_SECS * NANOS_PER_SEC,
    ensures
        two_thirds(nanos).valid(),
        2 * nanos - 6 < 3 * two_thirds(nanos).total() <= 2 * nanos,
{
}

/// A credential is renewed after two thirds of its lifetime: never before it
/// is issued, and early enough that a third of the lifetime is left. The
/// time of renewal is always in the calendar.
#[verifier::spinoff_prover]
#[verifier::rlimit(80)]
pub proof fn renewal_leaves_a_third(issued_at: Timestamp, expires_at: Timestamp)
    requires
        issued_at.valid(),
        expires_at.valid(),
        !issued_at.is_leap(),
        !expires_at.is_leap(),
        issued_at.before(expires_at),
    ensures
        renewal_in_calendar(issued_at, expires_at),
        renewal(issued_at, expires_at).valid(),
        !renewal(issued_at, expires_at).before(issued_at),
        renewal(issued_at, expires_at).before(expires_at),
        3 * (renewal(issued_at, expires_at).total() - issued_at.total()) <= 2 * (expires_at.total()
            - issued_at.total()),
        3 * (renewal(issued_at, expires_at).total() - issued_at.total()) > 2 * (expires_at.total()
            - issued_at.total()) - 6,
        3 * (expires_at.total() - renewal(issued_at, expires_at).total()) >= expires_at.total()
            - issued_at.total(),
{
}

/// A credential that expires before it is issued has no lifetime and is due
/// for renewal at once; nothing underflows.
pub proof fn degenerate_lifetimes_renew_at_once(issued_at: Timestamp, expires_at: Timestamp)
    requires
        issued_at.valid(),
        expires_at.valid(),
        elapsed(expires_at, issued_at) <= 0,
    ensures
        renewal_in_calendar(issued_at, expires_at),
        renewal(issued_at, expires_at) == issued_at,
{
}

/// Timestamps are in order: of two that differ exactly one lies before the
/// other, and what lies before a third one's predecessor lies before it. The
/// seconds decide first; outside of leap seconds it is the nanoseconds since
/// the start of 1970 that do.
pub proof fn timestamps_are_in_order(a: Timestamp, b: Timestamp, c: Timestamp)
    ensures
        !a.before(a),
        a.before(b) ==> !b.before(a),
        a != b ==> a.before(b) || b.before(a),
        a.before(b) && b.before(c) ==> a.before(c),
        a.secs < b.secs ==> a.before(b),
        a.secs == b.secs && a.nanos < b.nanos ==> a.before(b),
        !a.is_leap() && !b.is_leap() ==> (a.before(b) <==> a.total() < b.total()),
        a.total() == a.secs * 1_000_000_000 + a.nanos,
        a.is_leap() <==> a.nanos >= 1_000_000_000,
        a.valid() <==> -8_334_601_228_800 <= a.secs <= 8_210_266_876_799 && (a.nanos
            < 1_000_000_000 || (a.nanos < 2_000_000_000 && a.secs % 60 == 59)),
{
}

/// A span of time is told by its length in nanoseconds.
pub proof fn durations_are_told_by_their_length(a: Duration, b: Duration)
    ensures
        a.total() == a.secs * 1_000_000_000 + a.nanos,
        a.valid() <==> a.nanos < 1_000_000_000,
        a.valid() && b.valid() && a.total() == b.total() ==> a == b,
{
}

/// Outside of leap seconds the time between two points is the difference of
/// their nanoseconds. A leap second counts as one more, on the way past its
/// time of day.
pub proof fn time_passes_evenly(later: Timestamp, earlier: Timestamp)
    ensures
        !later.is_leap() && !earlier.is_leap() ==> elapsed(later, earlier) == later.total()
            - earlier.total(),
        elapsed(later, later) == 0,
        elapsed(later, earlier) == -elapsed(earlier, later),
        earlier.is_leap() && !later.is_leap() && later.secs % 86_400 > earlier.secs % 86_400
            ==> elapsed(later, earlier) == later.total() - earlier.total() + 1_000_000_000,
        earlier.is_leap() && !later.is_leap() && later.secs % 86_400 <= earlier.secs % 86_400
            ==> elapsed(later, earlier) == later.total() - earlier.total(),
        lifetime(earlier, later) >= 0,
        elapsed(later, earlier) >= 0 ==> lifetime(earlier, later) == elapsed(later, earlier),
        elapsed(later, earlier) <= 0 ==> lifetime(earlier, later) == 0,
{
}

/// The point some time after another one, outside of leap seconds, is that
/// many nanoseconds later. A short time may end within the leap second that it
/// starts in; a longer one leaves it and loses it.
#[verifier::spinoff_prover]
#[verifier::rlimit(80)]
pub proof fn later_is_so_much_later(start: Timestamp, span: Duration)
    requires
        start.valid(),
        span.valid(),
        start.secs + span.secs < MAX_SECS,
    ensures
        ({
            let end = later(start, span);
            let within = span.secs == 0 && start.nanos + span.nanos < 2_000_000_000;
            &&& end.valid()
            &&& !start.is_leap() ==> !end.is_leap() && end.total() == start.total() + span.total()
            &&& start.is_leap() && within ==> end.secs == start.secs && end.nanos == start.nanos
                + span.nanos
            &&& start.is_leap() && !within ==> !end.is_leap() && end.total() == start.total()
                - 1_000_000_000 + span.total()
        }),
{
}

/// A credential is due for renewal exactly two thirds of its lifetime after it
/// is issued, but for the two nanoseconds that rounding may take.
#[verifier::spinoff_prover]
#[verifier::rlimit(80)]
pub proof fn renewal_comes_after_two_thirds(issued_at: Timestamp, expires_at: Timestamp)
    requires
        issued_at.valid(),
        expires_at.valid(),
        renewal_in_calendar(issued_at, expires_at),
    ensures
        ({
            let due = renewal(issued_at, expires_at);
            let life = lifetime(issued_at, expires_at);
            let base = if !issued_at.is_leap() || due.is_leap() {
                issued_at.total()
            } else {
                issued_at.total() - 1_000_000_000
            };
            &&& due.valid()
            &&& 2 * life - 6 < 3 * (due.total() - base) <= 2 * life
        }),
{
    let life = lifetime(issued_at, expires_at);
    assert(life <= MAX_DELTA_SECS * NANOS_PER_SEC);
    two_thirds_are_two_thirds(life);
    let span = two_thirds(life);
    if !stays_leap(issued_at, span) {
        let nanos = issued_at.nanos % NANOS_PER_SEC + span.nanos;
        assert(nanos == (nanos / (NANOS_PER_SEC as int)) * NANOS_PER_SEC + nanos % (
        NANOS_PER_SEC as int));
    }
}

/// What each name of a unit is made of.
proof fn unit_names()
    ensures
        "nanos"@ == seq!['n', 'a', 'n', 'o', 's'],
        "nsec"@ == seq!['n', 's', 'e', 'c'],
        "ns"@ == seq!['n', 's'],
        "usec"@ == seq!['u', 's', 'e', 'c'],
        "us"@ == seq!['u', 's'],
        "\u{b5}s"@ == seq!['\u{b5}', 's'],
        "millis"@ == seq!['m', 'i', 'l', 'l', 'i', 's'],
        "msec"@ == seq!['m', 's', 'e', 'c'],
        "ms"@ == seq!['m', 's'],
        "seconds"@ == seq!['s', 'e', 'c', 'o', 'n', 'd', 's'],
        "second"@ == seq!['s', 'e', 'c', 'o', 'n', 'd'],
        "secs"@ == seq!['s', 'e', 'c', 's'],
        "sec"@ == seq!['s', 'e', 'c'],
        "s"@ == seq!['s'],
        "minutes"@ == seq!['m', 'i', 'n', 'u', 't', 'e', 's'],
        "minute"@ == seq!['m', 'i', 'n', 'u', 't', 'e'],
        "min"@ == seq!['m', 'i', 'n'],
        "mins"@ == seq!['m', 'i', 'n', 's'],
        "m"@ == seq!['m'],
        "hours"@ == seq!['h', 'o', 'u', 'r', 's'],
        "hour"@ == seq!['h', 'o', 'u', 'r'],
        "hr"@ == seq!['h', 'r'],
        "hrs"@ == seq!['h', 'r', 's'],
        "h"@ == seq!['h'],
        "days"@ == seq!['d', 'a', 'y', 's'],
        "day"@ == seq!['d', 'a', 'y'],
        "d"@ == seq!['d'],
        "weeks"@ == seq!['w', 'e', 'e', 'k', 's'],
        "week"@ == seq!['w', 'e', 'e', 'k'],
        "wk"@ == seq!['w', 'k'],
        "wks"@ == seq!['w', 'k', 's'],
        "w"@ == seq!['w'],
        "months"@ == seq!['m', 'o', 'n', 't', 'h', 's'],
        "month"@ == seq!['m', 'o', 'n', 't', 'h'],
        "M"@ == seq!['M'],
        "years"@ == seq!['y', 'e', 'a', 'r', 's'],
        "year"@ == seq!['y', 'e', 'a', 'r'],
        "yr"@ == seq!['y', 'r'],
        "yrs"@ == seq!['y', 'r', 's'],
        "y"@ == seq!['y'],
{
    reveal_strlit("nanos");
    reveal_strlit("nsec");
    reveal_strlit("ns");
    reveal_strlit("usec");
    reveal_strlit("us");
    reveal_strlit("\u{b5}s");
    reveal_strlit("millis");
    reveal_strlit("msec");
    reveal_strlit("ms");
    reveal_strlit("seconds");
    reveal_strlit("second");
    reveal_strlit("secs");
    reveal_strlit("sec");
    reveal_strlit("s");
    reveal_strlit("minutes");
    reveal_strlit("minute");
    reveal_strlit("min");
    reveal_strlit("mins");
    reveal_strlit("m");
    reveal_strlit("hours");
    reveal_strlit("hour");
    reveal_strlit("hr");
    reveal_strlit("hrs");
    reveal_strlit("h");
    reveal_strlit("days");
    reveal_strlit("day");
    reveal_strlit("d");
    reveal_strlit("weeks");
    reveal_strlit("week");
    reveal_strlit("wk");
    reveal_strlit("wks");
    reveal_strlit("w");
    reveal_strlit("months");
    reveal_strlit("month");
    reveal_strlit("M");
    reveal_strlit("years");
    reveal_strlit("year");
    reveal_strlit("yr");
    reveal_strlit("yrs");
    reveal_strlit("y");
    assert("nanos"@ =~= seq!['n', 'a', 'n', 'o', 's']);
    assert("nsec"@ =~= seq!['n', 's', 'e', 'c']);
    assert("ns"@ =~= seq!['n', 's']);
    assert("usec"@ =~= seq!['u', 's', 'e', 'c']);
    assert("us"@ =~= seq!['u', 's']);
    assert("\u{b5}s"@ =~= seq!['\u{b5}', 's']);
    assert("millis"@ =~= seq!['m', 'i', 'l', 'l', 'i', 's']);
    assert("msec"@ =~= seq!['m', 's', 'e', 'c']);
    assert("ms"@ =~= seq!['m', 's']);
    assert("seconds"@ =~= seq!['s', 'e', 'c', 'o', 'n', 'd', 's']);
    assert("second"@ =~= seq!['s', 'e', 'c', 'o', 'n', 'd']);
    assert("secs"@ =~= seq!['s', 'e', 'c', 's']);
    assert("sec"@ =~= seq!['s', 'e', 'c']);
    assert("s"@ =~= seq!['s']);
    assert("minutes"@ =~= seq!['m', 'i', 'n', 'u', 't', 'e', 's']);
    assert("minute"@ =~= seq!['m', 'i', 'n', 'u', 't', 'e']);
    assert("min"@ =~= seq!['m', 'i', 'n']);
    assert("mins"@ =~= seq!['m', 'i', 'n', 's']);
    assert("m"@ =~= seq!['m']);
    assert("hours"@ =~= seq!['h', 'o', 'u', 'r', 's']);
    assert("hour"@ =~= seq!['h', 'o', 'u', 'r']);
    assert("hr"@ =~= seq!['h', 'r']);
    assert("hrs"@ =~= seq!['h', 'r', 's']);
    assert("h"@ =~= seq!['h']);
    assert("days"@ =~= seq!['d', 'a', 'y', 's']);
    assert("day"@ =~= seq!['d', 'a', 'y']);
    assert("d"@ =~= seq!['d']);
    assert("weeks"@ =~= seq!['w', 'e', 'e', 'k', 's']);
    assert("week"@ =~= seq!['w', 'e', 'e', 'k']);
    assert("wk"@ =~= seq!['w', 'k']);
    assert("wks"@ =~= seq!['w', 'k', 's']);
    assert("w"@ =~= seq!['w']);
    assert("months"@ =~= seq!['m', 'o', 'n', 't', 'h', 's']);
    assert("month"@ =~= seq!['m', 'o', 'n', 't', 'h']);
    assert("M"@ =~= seq!['M']);
    assert("years"@ =~= seq!['y', 'e', 'a', 'r', 's']);
    assert("year"@ =~= seq!['y', 'e', 'a', 'r']);
    assert("yr"@ =~= seq!['y', 'r']);
    assert("yrs"@ =~= seq!['y', 'r', 's']);
    assert("y"@ =~= seq!['y']);
}

/// The names that are units: those of a unit all count the same, and no other
/// word counts anything.
pub proof fn units_have_their_names(word: Seq<char>)
    ensures
        unit_nanos("nsec"@) == unit_nanos("nanos"@),
        unit_nanos("ns"@) == unit_nanos("nanos"@),
        unit_nanos("us"@) == unit_nanos("usec"@),
        unit_nanos("\u{b5}s"@) == unit_nanos("usec"@),
        unit_nanos("msec"@) == unit_nanos("millis"@),
        unit_nanos("ms"@) == unit_nanos("millis"@),
        unit_nanos("second"@) == unit_nanos("seconds"@),
        unit_nanos("secs"@) == unit_nanos("seconds"@),
        unit_nanos("sec"@) == unit_nanos("seconds"@),
        unit_nanos("s"@) == unit_nanos("seconds"@),
        unit_nanos("minute"@) == unit_nanos("minutes"@),
        unit_nanos("min"@) == unit_nanos("minutes"@),
        unit_nanos("mins"@) == unit_nanos("minutes"@),
        unit_nanos("m"@) == unit_nanos("minutes"@),
        unit_nanos("hour"@) == unit_nanos("hours"@),
        unit_nanos("hr"@) == unit_nanos("hours"@),
        unit_nanos("hrs"@) == unit_nanos("hours"@),
        unit_nanos("h"@) == unit_nanos("hours"@),
        unit_nanos("day"@) == unit_nanos("days"@),
        unit_nanos("d"@) == unit_nanos("days"@),
        unit_nanos("week"@) == unit_nanos("weeks"@),
        unit_nanos("wk"@) == unit_nanos("weeks"@),
        unit_nanos("wks"@) == unit_nanos("weeks"@),
        unit_nanos("w"@) == unit_nanos("weeks"@),
        unit_nanos("month"@) == unit_nanos("months"@),
        unit_nanos("M"@) == unit_nanos("months"@),
        unit_nanos("year"@) == unit_nanos("years"@),
        unit_nanos("yr"@) == unit_nanos("years"@),
        unit_nanos("yrs"@) == unit_nanos("years"@),
        unit_nanos("y"@) == unit_nanos("years"@),
        unit_nanos(word) > 0 ==> {
            ||| word == "nanos"@ || word == "nsec"@ || word == "ns"@
            ||| word == "usec"@ || word == "us"@ || word == "\u{b5}s"@
            ||| word == "millis"@ || word == "msec"@ || word == "ms"@
            ||| word == "seconds"@ || word == "second"@ || word == "secs"@ || word == "sec"@
            ||| word == "s"@
            ||| word == "minutes"@ || word == "minute"@ || word == "min"@ || word == "mins"@
            ||| word == "m"@
            ||| word == "hours"@ || word == "hour"@ || word == "hr"@ || word == "hrs"@
            ||| word == "h"@
            ||| word == "days"@ || word == "day"@
            ||| word == "d"@
            ||| word == "weeks"@ || word == "week"@ || word == "wk"@ || word == "wks"@
            ||| word == "w"@
            ||| word == "months"@ || word == "month"@
            ||| word == "M"@
            ||| word == "years"@ || word == "year"@ || word == "yr"@ || word == "yrs"@
            ||| word == "y"@
        },
{
    unit_names();
    assert("nanos"@.len() == 5 && "nanos"@[0] == 'n');
    assert("nanos"@[1] == 'a');
    assert("nanos"@[2] == 'n');
    assert("nanos"@[3] == 'o');
    assert("nanos"@[4] == 's');
    assert("nsec"@.len() == 4 && "nsec"@[0] == 'n');
    assert("nsec"@[1] == 's');
    assert("nsec"@[2] == 'e');
    assert("nsec"@[3] == 'c');
    assert("ns"@.len() == 2 && "ns"@[0] == 'n');
    assert("ns"@[1] == 's');
    assert("usec"@.len() == 4 && "usec"@[0] == 'u');
    assert("usec"@[1] == 's');
    assert("usec"@[2] == 'e');
    assert("usec"@[3] == 'c');
    assert("us"@.len() == 2 && "us"@[0] == 'u');
    assert("us"@[1] == 's');
    assert("\u{b5}s"@.len() == 2 && "\u{b5}s"@[0] == '\u{b5}');
    assert("\u{b5}s"@[1] == 's');
    assert("millis"@.len() == 6 && "millis"@[0] == 'm');
    assert("millis"@[1] == 'i');
    assert("millis"@[2] == 'l');
    assert("millis"@[3] == 'l');
    assert("millis"@[4] == 'i');
    assert("millis"@[5] == 's');
    assert("msec"@.len() == 4 && "msec"@[0] == 'm');
    assert("msec"@[1] == 's');
    assert("msec"@[2] == 'e');
    assert("msec"@[3] == 'c');
    assert("ms"@.len() == 2 && "ms"@[0] == 'm');
    assert("ms"@[1] == 's');
    assert("seconds"@.len() == 7 && "seconds"@[0] == 's');
    assert("seconds"@[1] == 'e');
    assert("seconds"@[2] == 'c');
    assert("seconds"@[3] == 'o');
    assert("seconds"@[4] == 'n');
    assert("seconds"@[5] == 'd');
    assert("seconds"@[6] == 's');
    assert("second"@.len() == 6 && "second"@[0] == 's');
    assert("second"@[1] == 'e');
    assert("second"@[2] == 'c');
    assert("second"@[3] == 'o');
    assert("second"@[4] == 'n');
    assert("second"@[5] == 'd');
    assert("secs"@.len() == 4 && "secs"@[0] == 's');
    assert("secs"@[1] == 'e');
    assert("secs"@[2] == 'c');
    assert("secs"@[3] == 's');
    assert("sec"@.len() == 3 && "sec"@[0] == 's');
    assert("sec"@[1] == 'e');
    assert("sec"@[2] == 'c');
    assert("s"@.len() == 1 && "s"@[0] == 's');
    assert("minutes"@.len() == 7 && "minutes"@[0] == 'm');
    assert("minutes"@[1] == 'i');
    assert("minutes"@[2] == 'n');
    assert("minutes"@[3] == 'u');
    assert("minutes"@[4] == 't');
    assert("minutes"@[5] == 'e');
    assert("minutes"@[6] == 's');
    assert("minute"@.len() == 6 && "minute"@[0] == 'm');
    assert("minute"@[1] == 'i');
    assert("minute"@[2] == 'n');
    assert("minute"@[3] == 'u');
    assert("minute"@[4] == 't');
    assert("minute"@[5] == 'e');
    assert("min"@.len() == 3 && "min"@[0] == 'm');
    assert("min"@[1] == 'i');
    assert("min"@[2] == 'n');
    assert("mins"@.len() == 4 && "mins"@[0] == 'm');
    assert("mins"@[1] == 'i');
    assert("mins"@[2] == 'n');
    assert("mins"@[3] == 's');
    assert("m"@.len() == 1 && "m"@[0] == 'm');
    assert("hours"@.len() == 5 && "hours"@[0] == 'h');
    assert("hours"@[1] == 'o');
    assert("hours"@[2] == 'u');
    assert("hours"@[3] == 'r');
    assert("hours"@[4] == 's');
    assert("hour"@.len() == 4 && "hour"@[0] == 'h');
    assert("hour"@[1] == 'o');
    assert("hour"@[2] == 'u');
    assert("hour"@[3] == 'r');
    assert("hr"@.len() == 2 && "hr"@[0] == 'h');
    assert("hr"@[1] == 'r');
    assert("hrs"@.len() == 3 && "hrs"@[0] == 'h');
    assert("hrs"@[1] == 'r');
    assert("hrs"@[2] == 's');
    assert("h"@.len() == 1 && "h"@[0] == 'h');
    assert("days"@.len() == 4 && "days"@[0] == 'd');
    assert("days"@[1] == 'a');
    assert("days"@[2] == 'y');
    assert("days"@[3] == 's');
    assert("day"@.len() == 3 && "day"@[0] == 'd');
    assert("day"@[1] == 'a');
    assert("day"@[2] == 'y');
    assert("d"@.len() == 1 && "d"@[0] == 'd');
    assert("weeks"@.len() == 5 && "weeks"@[0] == 'w');
    assert("weeks"@[1] == 'e');
    assert("weeks"@[2] == 'e');
    assert("weeks"@[3] == 'k');
    assert("weeks"@[4] == 's');
    assert("week"@.len() == 4 && "week"@[0] == 'w');
    assert("week"@[1] == 'e');
    assert("week"@[2] == 'e');
    assert("week"@[3] == 'k');
    assert("wk"@.len() == 2 && "wk"@[0] == 'w');
    assert("wk"@[1] == 'k');
    assert("wks"@.len() == 3 && "wks"@[0] == 'w');
    assert("wks"@[1] == 'k');
    assert("wks"@[2] == 's');
    assert("w"@.len() == 1 && "w"@[0] == 'w');
    assert("months"@.len() == 6 && "months"@[0] == 'm');
    assert("months"@[1] == 'o');
    assert("months"@[2] == 'n');
    assert("months"@[3] == 't');
    assert("months"@[4] == 'h');
    assert("months"@[5] == 's');
    assert("month"@.len() == 5 && "month"@[0] == 'm');
    assert("month"@[1] == 'o');
    assert("month"@[2] == 'n');
    assert("month"@[3] == 't');
    assert("month"@[4] == 'h');
    assert("M"@.len() == 1 && "M"@[0] == 'M');
    assert("years"@.len() == 5 && "years"@[0] == 'y');
    assert("years"@[1] == 'e');
    assert("years"@[2] == 'a');
    assert("years"@[3] == 'r');
    assert("years"@[4] == 's');
    assert("year"@.len() == 4 && "year"@[0] == 'y');
    assert("year"@[1] == 'e');
    assert("year"@[2] == 'a');
    assert("year"@[3] == 'r');
    assert("yr"@.len() == 2 && "yr"@[0] == 'y');
    assert("yr"@[1] == 'r');
    assert("yrs"@.len() == 3 && "yrs"@[0] == 'y');
    assert("yrs"@[1] == 'r');
    assert("yrs"@[2] == 's');
    assert("y"@.len() == 1 && "y"@[0] == 'y');
}

/// How the units count each other, up from the nanosecond: a thousand to the
/// next three, sixty seconds to the minute, sixty minutes to the hour, 24 hours
/// to the day, seven days to the week, 365 1/4 days to the year, and 30.44 days
/// to the month.
pub proof fn units_count_each_other()
    ensures
        unit_nanos("ns"@) == 1,
        unit_nanos("us"@) == 1000 * unit_nanos("ns"@),
        unit_nanos("ms"@) == 1000 * unit_nanos("us"@),
        unit_nanos("s"@) == 1000 * unit_nanos("ms"@),
        unit_nanos("m"@) == 60 * unit_nanos("s"@),
        unit_nanos("h"@) == 60 * unit_nanos("m"@),
        unit_nanos("d"@) == 24 * unit_nanos("h"@),
        unit_nanos("w"@) == 7 * unit_nanos("d"@),
        4 * unit_nanos("y"@) == (4 * 365 + 1) * unit_nanos("d"@),
        100 * unit_nanos("M"@) == 3044 * unit_nanos("d"@),
{
    unit_names();
    assert("nanos"@.len() == 5 && "nanos"@[0] == 'n');
    assert("nsec"@.len() == 4 && "nsec"@[0] == 'n');
    assert("ns"@.len() == 2 && "ns"@[0] == 'n');
    assert("usec"@.len() == 4 && "usec"@[0] == 'u');
    assert("us"@.len() == 2 && "us"@[0] == 'u');
    assert("\u{b5}s"@.len() == 2 && "\u{b5}s"@[0] == '\u{b5}');
    assert("millis"@.len() == 6 && "millis"@[0] == 'm');
    assert("msec"@.len() == 4 && "msec"@[0] == 'm');
    assert("ms"@.len() == 2 && "ms"@[0] == 'm');
    assert("seconds"@.len() == 7 && "seconds"@[0] == 's');
    assert("second"@.len() == 6 && "second"@[0] == 's');
    assert("secs"@.len() == 4 && "secs"@[0] == 's');
    assert("sec"@.len() == 3 && "sec"@[0] == 's');
    assert("s"@.len() == 1 && "s"@[0] == 's');
    assert("minutes"@.len() == 7 && "minutes"@[0] == 'm');
    assert("minute"@.len() == 6 && "minute"@[0] == 'm');
    assert("min"@.len() == 3 && "min"@[0] == 'm');
    assert("mins"@.len() == 4 && "mins"@[0] == 'm');
    assert("m"@.len() == 1 && "m"@[0] == 'm');
    assert("hours"@.len() == 5 && "hours"@[0] == 'h');
    assert("hour"@.len() == 4 && "hour"@[0] == 'h');
    assert("hr"@.len() == 2 && "hr"@[0] == 'h');
    assert("hrs"@.len() == 3 && "hrs"@[0] == 'h');
    assert("h"@.len() == 1 && "h"@[0] == 'h');
    assert("days"@.len() == 4 && "days"@[0] == 'd');
    assert("day"@.len() == 3 && "day"@[0] == 'd');
    assert("d"@.len() == 1 && "d"@[0] == 'd');
    assert("weeks"@.len() == 5 && "weeks"@[0] == 'w');
    assert("week"@.len() == 4 && "week"@[0] == 'w');
    assert("wk"@.len() == 2 && "wk"@[0] == 'w');
    assert("wks"@.len() == 3 && "wks"@[0] == 'w');
    assert("w"@.len() == 1 && "w"@[0] == 'w');
    assert("months"@.len() == 6 && "months"@[0] == 'm');
    assert("month"@.len() == 5 && "month"@[0] == 'm');
    assert("M"@.len() == 1 && "M"@[0] == 'M');
    assert("years"@.len() == 5 && "years"@[0] == 'y');
    assert("year"@.len() == 4 && "year"@[0] == 'y');
    assert("yr"@.len() == 2 && "yr"@[0] == 'y');
    assert("yrs"@.len() == 3 && "yrs"@[0] == 'y');
    assert("y"@.len() == 1 && "y"@[0] == 'y');
    assert("us"@[1] == 's');
    assert("ms"@[1] == 's');
    assert("\u{b5}s"@[1] == 's');
    assert("ns"@[1] == 's');
    assert("wk"@[1] == 'k');
    assert("hr"@[1] == 'r');
    assert("yr"@[1] == 'r');
}

/// The spans of a text that goes on with another one: where a span is
/// complete and a digit follows, what comes is counted anew on top.
proof fn spans_go_on(text: Seq<char>, more: Seq<char>)
    requires
        spans(text).unit.len() > 0,
        more.len() > 0,
        is_decimal_digit(more[0]),
    ensures
        ({
            let all = spans(text + more);
            let new = spans(more);
            &&& all.before == spans(text).total() + new.before
            &&& all.several
            &&& all.number == new.number
            &&& all.fraction == new.fraction
            &&& all.numerator == new.numerator
            &&& all.denominator == new.denominator
            &&& all.unit == new.unit
            &&& all.complete == new.complete
        }),
    decreases more.len(),
{
    assert((text + more).drop_last() =~= text + more.drop_last());
    if more.len() == 1 {
        assert(text + more.drop_last() =~= text);
        assert(spans(more.drop_last()) == Spans::start());
        assert(unit_nanos(Seq::empty()) * 0 == 0);
        assert(spans(more).number == spans(text + more).number);
    } else {
        spans_go_on(text, more.drop_last());
    }
}

/// A text of two parts, the second one beginning with a digit after the first
/// one's unit, is as long as both together.
pub proof fn spans_add_up(text: Seq<char>, more: Seq<char>)
    requires
        spans(text).unit.len() > 0,
        more.len() > 0,
        is_decimal_digit(more[0]),
    ensures
        spans(text + more).total() == spans(text).total() + spans(more).total(),
{
    spans_go_on(text, more);
}

/// The digits of a number, in front of which nothing stands.
proof fn digits_are_a_number(digits: Seq<char>)
    requires
        forall|i: int| 0 <= i < digits.len() ==> is_decimal_digit(#[trigger] digits[i]),
    ensures
        number_of(digits) >= 0,
        spans(digits) == (Spans {
            number: number_of(digits) as nat,
            refused: spans(digits).refused,
            ..Spans::start()
        }),
        number_of(digits) <= u64::MAX ==> !spans(digits).refused,
    decreases digits.len(),
{
    if digits.len() > 0 {
        let rest = digits.drop_last();
        assert forall|i: int| 0 <= i < rest.len() implies is_decimal_digit(
            #[trigger] rest[i],
        ) by {
            assert(rest[i] == digits[i]);
        }
        digits_are_a_number(rest);
        assert(is_decimal_digit(digits[digits.len() - 1]));
    }
}

/// The letters of a unit after the number.
proof fn letters_are_a_unit(digits: Seq<char>, unit: Seq<char>)
    requires
        forall|i: int| 0 <= i < digits.len() ==> is_decimal_digit(#[trigger] digits[i]),
        forall|i: int| 0 <= i < unit.len() ==> is_unit_letter(#[trigger] unit[i]),
    ensures
        spans(digits + unit) == (Spans { unit, ..spans(digits) }),
    decreases unit.len(),
{
    digits_are_a_number(digits);
    if unit.len() > 0 {
        let rest = unit.drop_last();
        assert forall|i: int| 0 <= i < rest.len() implies is_unit_letter(#[trigger] rest[i]) by {
            assert(rest[i] == unit[i]);
        }
        letters_are_a_unit(digits, rest);
        assert((digits + unit).drop_last() =~= digits + rest);
        assert(is_unit_letter(unit[unit.len() - 1]));
        assert(rest.push(unit.last()) =~= unit);
    } else {
        assert(digits + unit =~= digits);
        assert(unit =~= Seq::empty());
    }
}

/// A number and a unit are that number of that unit.
pub proof fn one_span_is_its_number_of_units(digits: Seq<char>, unit: Seq<char>)
    requires
        forall|i: int| 0 <= i < digits.len() ==> is_decimal_digit(#[trigger] digits[i]),
        forall|i: int| 0 <= i < unit.len() ==> is_unit_letter(#[trigger] unit[i]),
    ensures
        spans(digits + unit).total() == number_of(digits) * unit_nanos(unit),
        spans(digits + unit).unit == unit,
{
    digits_are_a_number(digits);
    letters_are_a_unit(digits, unit);
    assert((0 * unit_nanos(unit)) / 1 == 0);
}

/// The digits of a number after a text in good order.
proof fn digits_after_others(text: Seq<char>, digits: Seq<char>)
    requires
        readable(text),
        spans(text).unit.len() > 0,
        !spans(text).refused,
        unit_nanos(spans(text).unit) > 0,
        digits.len() > 0,
        forall|i: int| 0 <= i < digits.len() ==> is_decimal_digit(#[trigger] digits[i]),
        number_of(digits) <= u64::MAX,
    ensures
        spans(text + digits) == (Spans {
            before: spans(text).total(),
            several: true,
            number: number_of(digits) as nat,
            refused: spans(text).total() >= SPAN_LIMIT,
            ..Spans::start()
        }),
    decreases digits.len(),
{
    let rest = digits.drop_last();
    assert((text + digits).drop_last() =~= text + rest);
    assert(is_decimal_digit(digits[digits.len() - 1]));
    digits_are_a_number(digits);
    assert forall|i: int| 0 <= i < rest.len() implies is_decimal_digit(#[trigger] rest[i]) by {
        assert(rest[i] == digits[i]);
    }
    digits_are_a_number(rest);
    if digits.len() == 1 {
        assert(text + rest =~= text);
        assert(number_of(rest) == 0);
    } else {
        digits_after_others(text, rest);
    }
}

/// The letters of a unit after a text in good order and a number.
proof fn letters_after_others(text: Seq<char>, digits: Seq<char>, unit: Seq<char>)
    requires
        readable(text),
        spans(text).unit.len() > 0,
        !spans(text).refused,
        unit_nanos(spans(text).unit) > 0,
        digits.len() > 0,
        forall|i: int| 0 <= i < digits.len() ==> is_decimal_digit(#[trigger] digits[i]),
        forall|i: int| 0 <= i < unit.len() ==> is_unit_letter(#[trigger] unit[i]),
        number_of(digits) <= u64::MAX,
    ensures
        spans(text + (digits + unit)) == (Spans { unit, ..spans(text + digits) }),
    decreases unit.len(),
{
    digits_after_others(text, digits);
    if unit.len() > 0 {
        let rest = unit.drop_last();
        assert forall|i: int| 0 <= i < rest.len() implies is_unit_letter(#[trigger] rest[i]) by {
            assert(rest[i] == unit[i]);
        }
        letters_after_others(text, digits, rest);
        assert((text + (digits + unit)).drop_last() =~= text + (digits + rest));
        assert(is_unit_letter(unit[unit.len() - 1]));
        assert(rest.push(unit.last()) =~= unit);
    } else {
        assert(digits + unit =~= digits);
        assert(unit =~= Seq::empty());
    }
}

/// A number and a unit after a text in good order cannot be handed to
/// humantime exactly if the unit is one below the second and the nanoseconds
/// fill up the last second below 2^64 to the brim.
pub proof fn the_last_second_is_not_filled_up(text: Seq<char>, digits: Seq<char>, unit: Seq<char>)
    requires
        readable(text),
        spans(text).unit.len() > 0,
        !spans(text).refused,
        unit_nanos(spans(text).unit) > 0,
        digits.len() > 0,
        forall|i: int| 0 <= i < digits.len() ==> is_decimal_digit(#[trigger] digits[i]),
        forall|i: int| 0 <= i < unit.len() ==> is_unit_letter(#[trigger] unit[i]),
        number_of(digits) <= u64::MAX,
    ensures
        ({
            let second: int = 1_000_000_000;
            let limit: int = 0x1_0000_0000_0000_0000 * second;
            let so_far: int = spans(text).total() as int;
            let more: int = number_of(digits) * unit_nanos(unit);
            readable(text + (digits + unit)) <==> !(unit_nanos(unit) < second && limit - second
                <= so_far < limit && so_far + more == limit)
        }),
{
    digits_are_a_number(digits);
    digits_after_others(text, digits);
    letters_after_others(text, digits, unit);
    assert((0 * unit_nanos(unit)) / 1 == 0);
}

/// Ten times itself so many times.
pub open spec fn power_of_ten(n: nat) -> nat
    decreases n,
{
    if n == 0 {
        1
    } else {
        power_of_ten((n - 1) as nat) * 10
    }
}

proof fn powers_of_ten_are_positive(n: nat)
    ensures
        power_of_ten(n) > 0,
    decreases n,
{
    if n > 0 {
        powers_of_ten_are_positive((n - 1) as nat);
    }
}

/// The digits of a fraction after the number.
proof fn digits_are_a_fraction(digits: Seq<char>, fraction: Seq<char>)
    requires
        forall|i: int| 0 <= i < digits.len() ==> is_decimal_digit(#[trigger] digits[i]),
        forall|i: int| 0 <= i < fraction.len() ==> is_decimal_digit(#[trigger] fraction[i]),
    ensures
        number_of(fraction) >= 0,
        spans(digits.push('.') + fraction) == (Spans {
            number: number_of(digits) as nat,
            fraction: true,
            numerator: number_of(fraction) as nat,
            denominator: power_of_ten(fraction.len()),
            refused: spans(digits.push('.') + fraction).refused,
            ..Spans::start()
        }),
    decreases fraction.len(),
{
    digits_are_a_number(digits);
    if fraction.len() > 0 {
        let rest = fraction.drop_last();
        assert forall|i: int| 0 <= i < rest.len() implies is_decimal_digit(
            #[trigger] rest[i],
        ) by {
            assert(rest[i] == fraction[i]);
        }
        digits_are_a_fraction(digits, rest);
        assert((digits.push('.') + fraction).drop_last() =~= digits.push('.') + rest);
        assert(is_decimal_digit(fraction[fraction.len() - 1]));
    } else {
        assert(digits.push('.') + fraction =~= digits.push('.'));
        assert(digits.push('.').drop_last() =~= digits);
    }
}

/// The letters of a unit after the fraction.
proof fn letters_after_a_fraction(digits: Seq<char>, fraction: Seq<char>, unit: Seq<char>)
    requires
        forall|i: int| 0 <= i < digits.len() ==> is_decimal_digit(#[trigger] digits[i]),
        forall|i: int| 0 <= i < fraction.len() ==> is_decimal_digit(#[trigger] fraction[i]),
        forall|i: int| 0 <= i < unit.len() ==> is_unit_letter(#[trigger] unit[i]),
    ensures
        spans(digits.push('.') + fraction + unit) == (Spans {
            unit,
            ..spans(digits.push('.') + fraction)
        }),
    decreases unit.len(),
{
    digits_are_a_fraction(digits, fraction);
    let front = digits.push('.') + fraction;
    if unit.len() > 0 {
        let rest = unit.drop_last();
        assert forall|i: int| 0 <= i < rest.len() implies is_unit_letter(#[trigger] rest[i]) by {
            assert(rest[i] == unit[i]);
        }
        letters_after_a_fraction(digits, fraction, rest);
        assert((front + unit).drop_last() =~= front + rest);
        assert(is_unit_letter(unit[unit.len() - 1]));
        assert(rest.push(unit.last()) =~= unit);
    } else {
        assert(front + unit =~= front);
        assert(unit =~= Seq::empty());
    }
}

/// A number with a fraction and a unit are that number of that unit and that
/// part of one, rounded down.
pub proof fn fractions_count_parts_of_a_unit(
    digits: Seq<char>,
    fraction: Seq<char>,
    unit: Seq<char>,
)
    requires
        forall|i: int| 0 <= i < digits.len() ==> is_decimal_digit(#[trigger] digits[i]),
        forall|i: int| 0 <= i < fraction.len() ==> is_decimal_digit(#[trigger] fraction[i]),
        forall|i: int| 0 <= i < unit.len() ==> is_unit_letter(#[trigger] unit[i]),
    ensures
        spans(digits.push('.') + fraction + unit).total() == number_of(digits) * unit_nanos(unit)
            + (number_of(fraction) * unit_nanos(unit)) / (power_of_ten(fraction.len()) as int),
{
    digits_are_a_number(digits);
    digits_are_a_fraction(digits, fraction);
    letters_after_a_fraction(digits, fraction, unit);
    powers_of_ten_are_positive(fraction.len());
    let (a, u, d) = (number_of(fraction), unit_nanos(unit) as int, power_of_ten(fraction.len()));
    assert(a * u >= 0) by (nonlinear_arith)
        requires
            a >= 0,
            u >= 0,
    ;
    assert((a * u) / (d as int) >= 0) by (nonlinear_arith)
        requires
            a * u >= 0,
            d > 0,
    ;
}

/// What is neither digit nor letter nor dot, such as a space, adds nothing.
pub proof fn spaces_add_nothing(text: Seq<char>, c: char)
    requires
        !('0' <= c && c <= '9'),
        !('a' <= c && c <= 'z'),
        !('A' <= c && c <= 'Z'),
        c != '\u{b5}',
        c != '.',
    ensures
        spans(text.push(c)).total() == spans(text).total(),
        readable(text.push(c)) <==> readable(text),
{
    assert(text.push(c).drop_last() =~= text);
}

/// There are ten digits, and the letters of a unit are those of the alphabet in
/// both cases and the sign for a millionth.
pub proof fn digits_and_letters_are_told_apart(c: char)
    ensures
        is_decimal_digit(c) <==> seq!['0', '1', '2', '3', '4', '5', '6', '7', '8', '9'].contains(c),
        is_unit_letter(c) <==> {
            ||| 0x61 <= c as int <= 0x7a
            ||| 0x41 <= c as int <= 0x5a
            ||| c as int == 0xb5
        },
        !(is_decimal_digit(c) && is_unit_letter(c)),
        !is_decimal_digit('.') && !is_unit_letter('.'),
        !is_decimal_digit(' ') && !is_unit_letter(' '),
{
    let digits = seq!['0', '1', '2', '3', '4', '5', '6', '7', '8', '9'];
    if is_decimal_digit(c) {
        assert(digits[c as int - '0' as int] == c);
    }
}

} // verus!
