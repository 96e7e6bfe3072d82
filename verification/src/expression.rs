//! How typed frequencies and ratio terms are prepared for the expression
//! evaluator, and which of the two readings a ratio entry gets.

use vstd::prelude::*;
use vstd::string::*;
use crate::text::{
    ascii_lowercase, ascii_operators, chars_of, contains_pair, has_pair, lowercase_chars,
    operators_to_ascii, string_from_chars, strip_pair, strip_pair_suffix, trim, trim_chars,
};

verus! {

/// Why a typed value was refused.
#[derive(Clone, Copy, Debug, PartialEq, Eq, Structural)]
pub enum ExprError {
    /// Nothing but whitespace was typed.
    Empty,
    /// The evaluator could not read the expression.
    Invalid,
    /// A frequency outside 20 Hz ..= 20 000 Hz, or not finite.
    OutOfRange,
}

impl ExprError {
    /// The text shown for the error.
    pub open spec fn spec_message(self) -> Seq<char> {
        match self {
            ExprError::Empty => "empty expression"@,
            ExprError::Invalid => "invalid expression"@,
            ExprError::OutOfRange => "frequency out of range"@,
        }
    }

    pub fn message(&self) -> (m: String)
        ensures
            m@ == self.spec_message(),
    {
        match self {
            ExprError::Empty => String::from_str("empty expression"),
            ExprError::Invalid => String::from_str("invalid expression"),
            ExprError::OutOfRange => String::from_str("frequency out of range"),
        }
    }
}

/// The text handed to the evaluator for a typed expression: trimmed, with
/// `×` and `÷` written as `*` and `/`; `None` where nothing is left.
pub open spec fn expression_text(s: Seq<char>) -> Option<Seq<char>> {
    if trim(s).len() == 0 {
        None
    } else {
        Some(ascii_operators(trim(s)))
    }
}

/// A typed frequency with its unit taken off: trimmed, lower-cased, a final
/// `hz` removed, and trimmed again.
pub open spec fn frequency_text(s: Seq<char>) -> Seq<char> {
    trim(strip_pair_suffix(ascii_lowercase(trim(s)), 'h', 'z'))
}

/// The text names the unit `Hz`, in any case.
pub open spec fn mentions_hertz(s: Seq<char>) -> bool {
    has_pair(ascii_lowercase(s), 'h', 'z')
}

/// How the two sides of an `X:Y` entry are read.
#[derive(Clone, Copy, Debug, PartialEq, Eq, Structural)]
pub enum RatioMode {
    /// Either side names `Hz`: both sides are frequencies.
    Frequencies,
    /// Both sides are plain numbers: their quotient scales Y against X.
    Ratio,
}

/// The reading of an entry whose sides are `left` and `right`.
pub open spec fn spec_ratio_mode(left: Seq<char>, right: Seq<char>) -> RatioMode {
    if mentions_hertz(left) || mentions_hertz(right) {
        RatioMode::Frequencies
    } else {
        RatioMode::Ratio
    }
}

pub(crate) fn prepare_chars(v: &Vec<char>) -> (r: Option<Vec<char>>)
    ensures
        r is Some <==> expression_text(v@) is Some,
        r matches Some(t) ==> expression_text(v@) == Some(t@),
{
    let t = trim_chars(v);
    if t.len() == 0 {
        None
    } else {
        Some(operators_to_ascii(&t))
    }
}

pub(crate) fn frequency_chars(v: &Vec<char>) -> (r: Vec<char>)
    ensures
        r@ == frequency_text(v@),
{
    let t = trim_chars(v);
    let lower = lowercase_chars(&t);
    let stripped = strip_pair(&lower, 'h', 'z');
    trim_chars(&stripped)
}

pub(crate) fn mode_of_chars(left: &Vec<char>, right: &Vec<char>) -> (m: RatioMode)
    ensures
        m == spec_ratio_mode(left@, right@),
{
    let l = lowercase_chars(left);
    let r = lowercase_chars(right);
    if contains_pair(&l, 'h', 'z') || contains_pair(&r, 'h', 'z') {
        RatioMode::Frequencies
    } else {
        RatioMode::Ratio
    }
}

/// Prepares a typed expression for the evaluator: `Err(Empty)` exactly where
/// only whitespace was typed, else the trimmed text with ASCII operators.
pub fn prepare_expression(input: &str) -> (r: Result<String, ExprError>)
    ensures
        r is Ok <==> expression_text(input@) is Some,
        r matches Ok(t) ==> expression_text(input@) == Some(t@),
        r matches Err(e) ==> e == ExprError::Empty,
{
    let v = chars_of(input);
    match prepare_chars(&v) {
        Some(t) => Ok(string_from_chars(&t)),
        None => Err(ExprError::Empty),
    }
}

/// Prepares a typed frequency: its unit taken off, then as `prepare_expression`.
pub fn prepare_frequency(input: &str) -> (r: Result<String, ExprError>)
    ensures
        r is Ok <==> expression_text(frequency_text(input@)) is Some,
        r matches Ok(t) ==> expression_text(frequency_text(input@)) == Some(t@),
        r matches Err(e) ==> e == ExprError::Empty,
{
    let v = chars_of(input);
    let f = frequency_chars(&v);
    match prepare_chars(&f) {
        Some(t) => Ok(string_from_chars(&t)),
        None => Err(ExprError::Empty),
    }
}

/// Whether an `X:Y` entry with these sides gives two frequencies or a ratio.
pub fn ratio_mode(left: &str, right: &str) -> (m: RatioMode)
    ensures
        m == spec_ratio_mode(left@, right@),
{
    let l = chars_of(left);
    let r = chars_of(right);
    mode_of_chars(&l, &r)
}

} // verus!
