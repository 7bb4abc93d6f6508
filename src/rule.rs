//! The closed vocabulary of rules and what it means for a value to break one.

use crate::text::{contains, ends_with, is_prefix, is_suffix, occurs_in, starts_with};
use vstd::prelude::*;
use vstd::utf8::encode_utf8;

verus! {

/// A rule kind, carrying its own operand.
pub enum ConstraintType {
    /// The value must be present.
    Required,
    /// A number must not be below the bound.
    MinRange(i64),
    /// A number must not be above the bound.
    MaxRange(i64),
    /// A present text must be at least this many bytes long.
    MinLength(usize),
    /// A present text must be at most this many bytes long.
    MaxLength(usize),
    /// A present text must contain this text.
    Contains(String),
    /// A present text must begin with this text.
    StartsWith(String),
    /// A present text must end with this text.
    EndsWith(String),
}

/// Length of a text, counted in bytes of its UTF-8 encoding.
pub open spec fn text_len(t: Seq<char>) -> nat {
    encode_utf8(t).len()
}

/// The characters of an optional text, if it is present.
pub open spec fn text_view(value: Option<&str>) -> Option<Seq<char>> {
    match value {
        Some(t) => Some(t@),
        None => None,
    }
}

/// The length of `t` in bytes.
pub fn byte_len(t: &str) -> (r: usize)
    ensures
        r == text_len(t@),
{
    t.as_bytes().len()
}

impl ConstraintType {
    /// Whether an optional text value breaks this rule. An absent value breaks
    /// only `Required`; the range rules do not apply to text.
    pub open spec fn broken_by_text(&self, value: Option<Seq<char>>) -> bool {
        match *self {
            ConstraintType::Required => value is None,
            ConstraintType::MinRange(_) => false,
            ConstraintType::MaxRange(_) => false,
            ConstraintType::MinLength(n) => value matches Some(t) && text_len(t) < n,
            ConstraintType::MaxLength(n) => value matches Some(t) && text_len(t) > n,
            ConstraintType::Contains(s) => value matches Some(t) && !occurs_in(s@, t),
            ConstraintType::StartsWith(s) => value matches Some(t) && !is_prefix(s@, t),
            ConstraintType::EndsWith(s) => value matches Some(t) && !is_suffix(s@, t),
        }
    }

    /// Whether a number breaks this rule. Only the range rules apply to numbers.
    pub open spec fn broken_by_number(&self, value: int) -> bool {
        match *self {
            ConstraintType::MinRange(n) => value < n,
            ConstraintType::MaxRange(n) => value > n,
            _ => false,
        }
    }

    /// Checks an optional text value against this rule.
    pub fn is_broken_by_text(&self, value: Option<&str>) -> (r: bool)
        ensures
            r == self.broken_by_text(text_view(value)),
    {
        match value {
            None => match self {
                ConstraintType::Required => true,
                _ => false,
            },
            Some(t) => {
                match self {
                    ConstraintType::Required => false,
                    ConstraintType::MinRange(_) => false,
                    ConstraintType::MaxRange(_) => false,
                    ConstraintType::MinLength(n) => byte_len(t) < *n,
                    ConstraintType::MaxLength(n) => byte_len(t) > *n,
                    ConstraintType::Contains(s) => !contains(t, s.as_str()),
                    ConstraintType::StartsWith(s) => !starts_with(t, s.as_str()),
                    ConstraintType::EndsWith(s) => !ends_with(t, s.as_str()),
                }
            },
        }
    }

    /// Checks a number against this rule.
    pub fn is_broken_by_number(&self, value: i128) -> (r: bool)
        ensures
            r == self.broken_by_number(value as int),
    {
        match self {
            ConstraintType::MinRange(n) => value < *n as i128,
            ConstraintType::MaxRange(n) => value > *n as i128,
            _ => false,
        }
    }
}

} // verus!
