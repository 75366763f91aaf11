//! Command line value types: the background mode and `U16Range`, an
//! inclusive range of positive 16-bit values written as `LOW,HIGH` (glitch
//! and linger durations).

use vstd::prelude::*;
use crate::chars::{
    all_digits, chars_of, decimal, lemma_decimal_spells, lemma_parse_u16_decimal, parse_u16_at,
    parse_u16_spec, trim, trim_bounds,
};

verus! {

/// How the background is drawn.
#[derive(Clone, Copy, Debug, PartialEq, Eq, Structural)]
pub enum ColorBg {
    /// Paint the background black.
    Black,
    /// Use the terminal's default background colour.
    DefaultBackground,
    /// Leave the background untouched.
    Transparent,
}

/// An inclusive range `low..=high`.
#[derive(Clone, Copy, Debug)]
pub struct U16Range {
    pub low: u16,
    pub high: u16,
}

/// Why a `LOW,HIGH` text was refused.
#[derive(Clone, Copy, Debug, PartialEq, Eq, Structural)]
pub enum RangeError {
    /// The text holds no comma.
    MissingComma,
    /// The part before the first comma is not a `u16`.
    InvalidLow,
    /// The part after the first comma is not a `u16`.
    InvalidHigh,
    /// A bound is zero, or `low > high`.
    Empty,
}

/// The message that each refusal carries.
pub open spec fn range_error_message(e: RangeError) -> Seq<char> {
    match e {
        RangeError::MissingComma => "expected: NUM1,NUM2"@,
        RangeError::InvalidLow => "invalid low value"@,
        RangeError::InvalidHigh => "invalid high value"@,
        RangeError::Empty => "range must be >0 and low <= high (min allowed value is 1)"@,
    }
}

/// What parsing `s` as `LOW,HIGH` gives: the text is split at its first
/// comma, each side is trimmed of white space and read as a `u16`, and the
/// range must satisfy `1 <= low <= high`. Errors are reported in that order.
pub open spec fn parse_range_spec(s: Seq<char>) -> Result<(u16, u16), RangeError> {
    match s.index_of_first(',') {
        None => Err(RangeError::MissingComma),
        Some(k) => match parse_u16_spec(trim(s.take(k))) {
            None => Err(RangeError::InvalidLow),
            Some(low) => match parse_u16_spec(trim(s.skip(k + 1))) {
                None => Err(RangeError::InvalidHigh),
                Some(high) => if low == 0 || high == 0 || low > high {
                    Err(RangeError::Empty)
                } else {
                    Ok((low, high))
                },
            },
        },
    }
}

/// Finds the first occurrence of `c` in `s`.
pub fn find_first(s: &Vec<char>, c: char) -> (r: Option<usize>)
    ensures
        match r {
            Some(i) => i < s@.len() && s@.index_of_first(c) == Some(i as int),
            None => s@.index_of_first(c) is None,
        },
{
    proof {
        s@.index_of_first_ensures(c);
    }
    let mut i: usize = 0;
    while i < s.len()
        invariant
            i <= s@.len(),
            forall|j: int| 0 <= j < i ==> s@[j] != c,
        decreases s.len() - i,
    {
        if s[i] == c {
            proof {
                s@.index_of_first_ensures(c);
                if let Some(k) = s@.index_of_first(c) {
                    assert(k == i);
                } else {
                    assert(s@.contains(c));
                }
            }
            return Some(i);
        }
        i = i + 1;
    }
    proof {
        s@.index_of_first_ensures(c);
        if let Some(k) = s@.index_of_first(c) {
            assert(s@[k] == c);
        }
    }
    None
}

impl RangeError {
    /// The message of this refusal, as the command line reports it.
    pub fn message(&self) -> (m: String)
        ensures
            m@ == range_error_message(*self),
    {
        match self {
            RangeError::MissingComma => String::from_str("expected: NUM1,NUM2"),
            RangeError::InvalidLow => String::from_str("invalid low value"),
            RangeError::InvalidHigh => String::from_str("invalid high value"),
            RangeError::Empty => String::from_str(
                "range must be >0 and low <= high (min allowed value is 1)",
            ),
        }
    }
}

impl U16Range {
    /// Parses `LOW,HIGH`, reporting which part was refused.
    pub fn parse(s: &str) -> (r: Result<U16Range, RangeError>)
        ensures
            match r {
                Ok(v) => parse_range_spec(s@) == Ok::<(u16, u16), RangeError>((v.low, v.high)),
                Err(e) => parse_range_spec(s@) == Err::<(u16, u16), RangeError>(e),
            },
    {
        let cs = chars_of(s);
        let k = match find_first(&cs, ',') {
            None => return Err(RangeError::MissingComma),
            Some(k) => k,
        };
        assert(cs@.take(k as int) =~= cs@.subrange(0, k as int));
        assert(cs@.skip(k + 1) =~= cs@.subrange(k + 1, cs@.len() as int));
        let (a, b) = trim_bounds(&cs, 0, k);
        let low = match parse_u16_at(&cs, a, b) {
            None => return Err(RangeError::InvalidLow),
            Some(v) => v,
        };
        let (c, d) = trim_bounds(&cs, k + 1, cs.len());
        let high = match parse_u16_at(&cs, c, d) {
            None => return Err(RangeError::InvalidHigh),
            Some(v) => v,
        };
        if low == 0 || high == 0 || low > high {
            return Err(RangeError::Empty);
        }
        Ok(U16Range { low, high })
    }
}

impl core::str::FromStr for U16Range {
    type Err = String;

    fn from_str(s: &str) -> (r: Result<U16Range, String>)
        ensures
            match r {
                Ok(v) => parse_range_spec(s@) == Ok::<(u16, u16), RangeError>((v.low, v.high)),
                Err(m) => exists|e: RangeError|
                    parse_range_spec(s@) == Err::<(u16, u16), RangeError>(e) && m@
                        == range_error_message(e),
            },
    {
        match U16Range::parse(s) {
            Ok(v) => Ok(v),
            Err(e) => Err(e.message()),
        }
    }
}

/// A text that parses is a non-empty range of positive values.
pub proof fn lemma_parsed_range_valid(s: Seq<char>)
    ensures
        parse_range_spec(s) matches Ok((low, high)) ==> 1 <= low <= high,
{
}

/// Every valid range reads back from its `LOW,HIGH` form.
pub proof fn lemma_range_text_round_trip(low: u16, high: u16)
    requires
        1 <= low <= high,
    ensures
        parse_range_spec(decimal(low as nat) + seq![','] + decimal(high as nat))
            == Ok::<(u16, u16), RangeError>((low, high)),
{
    let a = decimal(low as nat);
    let b = decimal(high as nat);
    let s = a + seq![','] + b;
    lemma_decimal_spells(low as nat);
    lemma_decimal_spells(high as nat);
    lemma_parse_u16_decimal(low);
    lemma_parse_u16_decimal(high);
    s.index_of_first_ensures(',');
    assert(s[a.len() as int] == ',');
    assert(s.contains(','));
    let k = s.index_of_first(',')->0;
    if k < a.len() {
        assert(s[k] == a[k]);
        assert(all_digits(a));
    }
    assert(k == a.len());
    assert(s.take(k) =~= a);
    assert(s.skip(k + 1) =~= b);
}

} // verus!
