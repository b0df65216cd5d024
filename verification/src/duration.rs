//! Lengths of time, and how a text becomes one.
//!
//! The grammar of durations is that of the `parse_duration` crate. One kind
//! of text is refused before that parser sees it: one with an exponent of
//! more than `MAX_EXPONENT_DIGITS` digits, on which the parser raises ten to
//! that power and may not come back.

use vstd::prelude::*;

verus! {

/// Nanoseconds in one second.
pub const NANOS_PER_SEC: u32 = 1_000_000_000;

/// Whole seconds of the longest length that `chrono` holds, which is
/// `i64::MAX` milliseconds.
pub const MAX_SECS: i64 = 9_223_372_036_854_775;

/// Nanoseconds past `MAX_SECS` of that longest length.
pub const MAX_SECS_NANOS: i32 = 807_000_000;

/// The most digits that an exponent in a duration may have.
pub const MAX_EXPONENT_DIGITS: usize = 4;

/// A length of time as `chrono` reports one: whole seconds, and the
/// nanoseconds past them.
#[derive(Clone, Copy, Debug, PartialEq, Eq, Structural)]
pub struct TimeDelta {
    pub secs: i64,
    pub nanos: i32,
}

/// Why a text gave no length of time.
#[derive(Clone, Copy, Debug, PartialEq, Eq, Structural)]
pub enum DurationError {
    /// The text is not in the grammar of durations: the parser refuses it,
    /// or one of its exponents is too long.
    Syntax,
    /// The text is a duration, and longer than a `TimeDelta` can hold.
    Range,
}

impl TimeDelta {
    /// Whether this is a length that the library hands out: not negative,
    /// and within what `chrono` holds.
    pub open spec fn is_valid(self) -> bool {
        &&& 0 <= self.secs <= MAX_SECS
        &&& 0 <= self.nanos < NANOS_PER_SEC
        &&& self.secs == MAX_SECS ==> self.nanos <= MAX_SECS_NANOS
    }
}

/// Whether `c` is one of the ten ASCII digits.
pub open spec fn is_digit(c: char) -> bool {
    '0' <= c <= '9'
}

/// How many digits stand in `text` from position `from` on, without a gap.
pub open spec fn digit_run(text: Seq<char>, from: int) -> nat
    decreases text.len() - from,
{
    if 0 <= from < text.len() && is_digit(text[from]) {
        1 + digit_run(text, from + 1)
    } else {
        0
    }
}

/// Whether an exponent may begin at position `i` of `text`: an `e` of
/// either case, directly behind a digit or a decimal point.
pub open spec fn is_exponent_mark(text: Seq<char>, i: int) -> bool {
    &&& 0 < i < text.len()
    &&& text[i] == 'e' || text[i] == 'E'
    &&& is_digit(text[i - 1]) || text[i - 1] == '.'
}

/// Where the digits of the exponent marked at `i` begin: behind the mark, or
/// behind the sign that follows it.
pub open spec fn exponent_digits_at(text: Seq<char>, i: int) -> int {
    if i + 1 < text.len() && (text[i + 1] == '+' || text[i + 1] == '-') {
        i + 2
    } else {
        i + 1
    }
}

/// Whether no exponent in `text` has more than `MAX_EXPONENT_DIGITS` digits.
/// Only such a text is handed to the parser.
pub open spec fn exponents_bounded(text: Seq<char>) -> bool {
    forall|i: int| #[trigger]
        is_exponent_mark(text, i) ==> digit_run(text, exponent_digits_at(text, i))
            <= MAX_EXPONENT_DIGITS
}

/// What `parse_duration::parse` makes of a text: the whole seconds and the
/// nanoseconds past them of the `std::time::Duration` it returns, or nothing
/// where it refuses the text.
pub uninterp spec fn parsed_duration(text: Seq<char>) -> Option<(u64, u32)>;

/// Whether `secs` seconds and `nanos` nanoseconds are a length that a
/// `TimeDelta` can hold: at most `i64::MAX` milliseconds.
pub open spec fn fits_time_delta(secs: u64, nanos: u32) -> bool {
    &&& nanos < NANOS_PER_SEC
    &&& secs < MAX_SECS || (secs == MAX_SECS && nanos <= MAX_SECS_NANOS)
}

/// The length that the parts of a parsed duration stand for, or why there is
/// none: nothing parsed is a failure of syntax, a length that `chrono` cannot
/// hold is a failure of range.
pub open spec fn duration_of_parsed(parsed: Option<(u64, u32)>) -> Result<
    TimeDelta,
    DurationError,
> {
    match parsed {
        None => Err(DurationError::Syntax),
        Some((secs, nanos)) => if fits_time_delta(secs, nanos) {
            Ok(TimeDelta { secs: secs as i64, nanos: nanos as i32 })
        } else {
            Err(DurationError::Range)
        },
    }
}

/// The length that a text stands for, or why it stands for none.
pub open spec fn duration_of(text: Seq<char>) -> Result<TimeDelta, DurationError> {
    if exponents_bounded(text) {
        duration_of_parsed(parsed_duration(text))
    } else {
        Err(DurationError::Syntax)
    }
}

/// Calls `parse_duration::parse`. Trusted: the result is a function of the
/// text alone. A text with a long exponent is kept away from the parser,
/// which raises ten to that power before it looks at the size of the result.
#[verifier::external_body]
fn parse_std_duration(text: &str) -> (r: Option<(u64, u32)>)
    requires
        exponents_bounded(text@),
    ensures
        r == parsed_duration(text@),
{
    match parse_duration::parse(text) {
        Ok(d) => Some((d.as_secs(), d.subsec_nanos())),
        Err(_) => None,
    }
}

/// Calls `chrono::Duration::from_std` on the `std::time::Duration` of
/// `secs` seconds and `nanos` nanoseconds. Trusted: `chrono` refuses a
/// length above `i64::MAX` milliseconds, and otherwise keeps the seconds
/// and the nanoseconds as they are.
#[verifier::external_body]
fn chrono_from_std(secs: u64, nanos: u32) -> (r: Option<TimeDelta>)
    requires
        nanos < NANOS_PER_SEC,
    ensures
        r == if fits_time_delta(secs, nanos) {
            Some(TimeDelta { secs: secs as i64, nanos: nanos as i32 })
        } else {
            None
        },
{
    match chrono::Duration::from_std(std::time::Duration::new(secs, nanos)) {
        Ok(d) => Some(TimeDelta { secs: d.num_seconds(), nanos: d.subsec_nanos() }),
        Err(_) => None,
    }
}

fn is_digit_char(c: char) -> (b: bool)
    ensures
        b == is_digit(c),
{
    '0' <= c && c <= '9'
}

fn chars_of(text: &str) -> (chars: Vec<char>)
    ensures
        chars@ == text@,
{
    let mut chars: Vec<char> = Vec::new();
    for c in it: text.chars()
        invariant
            chars@ == it.seq().take(it.index()),
            it.seq() == text@,
    {
        chars.push(c);
    }
    chars
}

/// Counts the digits from `from` on, and stops counting one past
/// `MAX_EXPONENT_DIGITS`.
fn capped_digit_run(chars: &Vec<char>, from: usize) -> (count: usize)
    ensures
        count <= MAX_EXPONENT_DIGITS + 1,
        count <= MAX_EXPONENT_DIGITS ==> digit_run(chars@, from as int) == count,
        count > MAX_EXPONENT_DIGITS ==> digit_run(chars@, from as int) > MAX_EXPONENT_DIGITS,
{
    let len: usize = chars.len();
    let mut count: usize = 0;
    while count <= MAX_EXPONENT_DIGITS && from < len && count < len - from && is_digit_char(
        chars[from + count],
    )
        invariant
            len == chars.len(),
            count <= MAX_EXPONENT_DIGITS + 1,
            digit_run(chars@, from as int) == count + digit_run(chars@, from + count),
        decreases MAX_EXPONENT_DIGITS + 1 - count,
    {
        count += 1;
    }
    count
}

fn is_exponent_mark_at(chars: &Vec<char>, i: usize) -> (b: bool)
    ensures
        b == is_exponent_mark(chars@, i as int),
{
    if i == 0 || i >= chars.len() {
        return false;
    }
    let c: char = chars[i];
    let before: char = chars[i - 1];
    (c == 'e' || c == 'E') && (is_digit_char(before) || before == '.')
}

fn exponent_digits_start(chars: &Vec<char>, i: usize) -> (start: usize)
    requires
        i < chars.len(),
    ensures
        start == exponent_digits_at(chars@, i as int),
{
    if i + 1 < chars.len() && (chars[i + 1] == '+' || chars[i + 1] == '-') {
        i + 2
    } else {
        i + 1
    }
}

/// Whether no exponent in `text` has more than `MAX_EXPONENT_DIGITS` digits.
pub fn has_bounded_exponents(text: &str) -> (b: bool)
    ensures
        b == exponents_bounded(text@),
{
    let chars = chars_of(text);
    let len: usize = chars.len();
    let mut i: usize = 0;
    while i < len
        invariant
            len == chars.len(),
            chars@ == text@,
            i <= len,
            forall|j: int|
                0 <= j < i && #[trigger] is_exponent_mark(chars@, j) ==> digit_run(
                    chars@,
                    exponent_digits_at(chars@, j),
                ) <= MAX_EXPONENT_DIGITS,
        decreases len - i,
    {
        if is_exponent_mark_at(&chars, i) {
            let start: usize = exponent_digits_start(&chars, i);
            if capped_digit_run(&chars, start) > MAX_EXPONENT_DIGITS {
                return false;
            }
        }
        i += 1;
    }
    true
}

/// The length that the parts of a parsed duration stand for: `parsed` is what
/// the parser gave, the whole seconds and the nanoseconds past them.
/// Nanoseconds that make a second or more are out of range.
pub fn duration_from_parsed(parsed: Option<(u64, u32)>) -> (r: Result<TimeDelta, DurationError>)
    ensures
        r == duration_of_parsed(parsed),
        r matches Ok(delta) ==> delta.is_valid(),
{
    match parsed {
        None => Err(DurationError::Syntax),
        Some((secs, nanos)) => {
            if nanos >= NANOS_PER_SEC {
                return Err(DurationError::Range);
            }
            match chrono_from_std(secs, nanos) {
                Some(delta) => Ok(delta),
                None => Err(DurationError::Range),
            }
        },
    }
}

/// Reads a duration such as `5m`, `2h30m` or `1d`.
pub fn duration_from_string(duration_string: &str) -> (r: Result<TimeDelta, DurationError>)
    ensures
        r == duration_of(duration_string@),
        r matches Ok(delta) ==> delta.is_valid(),
{
    if !has_bounded_exponents(duration_string) {
        return Err(DurationError::Syntax);
    }
    duration_from_parsed(parse_std_duration(duration_string))
}

/// Two texts of which the parser makes the same give the same length, or
/// fail in the same way: beyond the exponents that it measures, the library
/// reads a text only through the parser.
pub proof fn lemma_equal_parses_equal_durations(first: Seq<char>, second: Seq<char>)
    ensures
        exponents_bounded(first) && exponents_bounded(second) && parsed_duration(first)
            == parsed_duration(second) ==> duration_of(first) == duration_of(second),
{
}

} // verus!
