//! Spans of time: how often a scenario runs, how long a confirmation may take.

use vstd::prelude::*;

verus! {

/// Nanoseconds in one millisecond.
pub const NANOS_PER_MILLI: u128 = 1_000_000;

/// Nanoseconds in one second.
pub const NANOS_PER_SEC: u128 = 1_000_000_000;

/// A non-negative span of time, counted in nanoseconds.
#[derive(Debug, Clone, Copy, PartialEq, Eq, Structural)]
pub struct Interval {
    /// The whole span in nanoseconds.
    pub nanos: u128,
}

impl Interval {
    /// The span of `secs` seconds.
    pub fn from_secs(secs: u64) -> (span: Interval)
        ensures
            span.nanos == secs * 1_000_000_000,
    {
        assert(secs * 1_000_000_000 <= 0xffff_ffff_ffff_ffff * 1_000_000_000) by (nonlinear_arith)
            requires
                secs <= 0xffff_ffff_ffff_ffff,
        ;
        Interval { nanos: (secs as u128) * NANOS_PER_SEC }
    }

    /// The span of `millis` milliseconds.
    pub fn from_millis(millis: u64) -> (span: Interval)
        ensures
            span.nanos == millis * 1_000_000,
    {
        assert(millis * 1_000_000 <= 0xffff_ffff_ffff_ffff * 1_000_000) by (nonlinear_arith)
            requires
                millis <= 0xffff_ffff_ffff_ffff,
        ;
        Interval { nanos: (millis as u128) * NANOS_PER_MILLI }
    }

    /// The span in nanoseconds.
    pub fn as_nanos(&self) -> (nanos: u128)
        ensures
            nanos == self.nanos,
    {
        self.nanos
    }

    /// The whole milliseconds that fit into the span.
    pub fn as_millis(&self) -> (millis: u128)
        ensures
            millis == self.nanos / 1_000_000,
    {
        self.nanos / NANOS_PER_MILLI
    }

    /// Whether the span is longer than nothing. A schedule needs such a span between runs.
    pub fn is_positive(&self) -> (positive: bool)
        ensures
            positive == (self.nanos > 0),
    {
        self.nanos > 0
    }
}

/// Why a text was not accepted as a span of time.
#[derive(Debug, Clone, Copy, PartialEq, Eq, Structural)]
pub enum IntervalError {
    /// The text gives a value in scientific notation, which is not read.
    ExponentNotAccepted,
    /// The text does not describe a span of time.
    Unparseable,
}

/// What `parse_duration` makes of a text, in nanoseconds; `None` where it rejects the text.
pub uninterp spec fn parsed_nanos(text: Seq<char>) -> Option<nat>;

/// Whether `c` is one of the ten decimal digits.
pub open spec fn is_digit(c: char) -> bool {
    '0' <= c <= '9'
}

/// Whether an exponent could begin at position `i`: the letter `e` followed by a digit or a
/// sign.
pub open spec fn exponent_at(text: Seq<char>, i: int) -> bool {
    &&& 0 <= i
    &&& i + 1 < text.len()
    &&& (text[i] == 'e' || text[i] == 'E')
    &&& (is_digit(text[i + 1]) || text[i + 1] == '+' || text[i + 1] == '-')
}

/// Whether the text holds nothing that could be read as an exponent.
pub open spec fn exponent_free(text: Seq<char>) -> bool {
    forall|i: int| !exponent_at(text, i)
}

/// Calls `parse_duration::parse` and hands back the nanoseconds of the duration it found.
///
/// The parser is a function of the text alone; what it returns is named by
/// [`parsed_nanos`]. Texts with an exponent are kept away from it, because it raises ten
/// to that power with unbounded integers and may not come back.
#[verifier::external_body]
fn parse_span(text: &str) -> (outcome: Result<u128, parse_duration::parse::Error>)
    requires
        exponent_free(text@),
    ensures
        outcome is Ok ==> parsed_nanos(text@) == Some(outcome->Ok_0 as nat),
        outcome is Err ==> parsed_nanos(text@) is None,
{
    parse_duration::parse(text).map(|d| d.as_nanos())
}

/// Decides whether an exponent could be read anywhere in `text`.
pub fn has_exponent(text: &str) -> (found: bool)
    ensures
        found == !exponent_free(text@),
{
    let n: usize = text.unicode_len();
    if n < 2 {
        return false;
    }
    let mut i: usize = 0;
    while i < n - 1
        invariant
            n == text@.len(),
            n >= 2,
            i <= n - 1,
            forall|j: int| j < i ==> !exponent_at(text@, j),
        decreases n - i,
    {
        let c: char = text.get_char(i);
        let d: char = text.get_char(i + 1);
        if (c == 'e' || c == 'E') && (('0' <= d && d <= '9') || d == '+' || d == '-') {
            assert(exponent_at(text@, i as int));
            return true;
        }
        i = i + 1;
    }
    assert forall|j: int| !exponent_at(text@, j) by {
        if exponent_at(text@, j) {
            assert(j < i);
        }
    }
    false
}

/// Reads a human-written span such as `"5s"` or `"1m 30s"`.
///
/// A text with an exponent is refused; any other text is handed to the duration parser,
/// whose verdict is returned.
pub fn parse_interval(text: &str) -> (outcome: Result<Interval, IntervalError>)
    ensures
        !exponent_free(text@) ==> outcome == Err::<Interval, IntervalError>(
            IntervalError::ExponentNotAccepted,
        ),
        exponent_free(text@) && parsed_nanos(text@) is Some ==> outcome == Ok::<
            Interval,
            IntervalError,
        >(Interval { nanos: parsed_nanos(text@)->Some_0 as u128 }) && parsed_nanos(text@)->Some_0
            <= u128::MAX,
        exponent_free(text@) && parsed_nanos(text@) is None ==> outcome == Err::<
            Interval,
            IntervalError,
        >(IntervalError::Unparseable),
{
    if has_exponent(text) {
        return Err(IntervalError::ExponentNotAccepted);
    }
    match parse_span(text) {
        Ok(nanos) => Ok(Interval { nanos }),
        Err(_) => Err(IntervalError::Unparseable),
    }
}

#[verifier::external_type_specification]
#[verifier::external_body]
pub struct ExParseError(parse_duration::parse::Error);

} // verus!
