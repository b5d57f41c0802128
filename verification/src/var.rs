//! One environment variable's value, or its absence, and how it is read.

use crate::numeral::{numeral_up_to, parse_up_to};
use crate::text::{
    chars_of, contains, contains_ignoring_case, eq_ignoring_case, equals_ignoring_case,
    fold, is_prefix, occurs, occurs_ignoring_case, starts_with,
};
use vstd::prelude::*;

verus! {

/// Whether a variable switches its feature on: it is set, not empty, and
/// neither `0` nor `false` in any case.
pub open spec fn truthy(value: Option<Seq<char>>) -> bool {
    match value {
        Some(s) => s.len() > 0 && !eq_ignoring_case(s, "0"@) && !eq_ignoring_case(s, "false"@),
        None => false,
    }
}

/// The color level that a variable names: its value read as a numeral, if
/// that is one of 0, 1, 2 and 3.
pub open spec fn level_of(value: Option<Seq<char>>) -> Option<nat> {
    match value {
        Some(s) => numeral_up_to(s, 3),
        None => None,
    }
}

/// Whether a variable is set and its value begins with `prefix`.
pub open spec fn begins_with(value: Option<Seq<char>>, prefix: Seq<char>) -> bool {
    match value {
        Some(s) => is_prefix(s, prefix),
        None => false,
    }
}

/// Whether a variable is set and `pat` stands somewhere in its value.
pub open spec fn holds(value: Option<Seq<char>>, pat: Seq<char>) -> bool {
    match value {
        Some(s) => occurs(s, pat),
        None => false,
    }
}

/// Whether a variable is set and equal to `token`, ASCII case ignored.
pub open spec fn is_token(value: Option<Seq<char>>, token: Seq<char>) -> bool {
    match value {
        Some(s) => eq_ignoring_case(s, token),
        None => false,
    }
}

/// Whether a variable is set and `pat` stands somewhere in its value, ASCII
/// case ignored.
pub open spec fn holds_token(value: Option<Seq<char>>, pat: Seq<char>) -> bool {
    match value {
        Some(s) => occurs_ignoring_case(s, pat),
        None => false,
    }
}

/// The value of one environment variable, or the fact that it is not set.
///
/// A variable that is set to the empty string is set; it is only not truthy.
#[derive(Clone, Debug)]
pub struct TermVar(Option<String>);

impl View for TermVar {
    type V = Option<Seq<char>>;

    closed spec fn view(&self) -> Option<Seq<char>> {
        match self.0 {
            Some(s) => Some(s@),
            None => None,
        }
    }
}

impl TermVar {
    /// A variable set to `value`.
    pub fn new(value: &str) -> (r: TermVar)
        ensures
            r@ == Some(value@),
    {
        TermVar(Some(value.to_owned()))
    }

    /// A variable that is not set.
    pub fn unset() -> (r: TermVar)
        ensures
            r@ is None,
    {
        TermVar(None)
    }

    /// A variable as a lookup found it: set to the string, or not set.
    pub fn from_option(value: Option<String>) -> (r: TermVar)
        ensures
            r@ == match value {
                Some(s) => Some(s@),
                None => None,
            },
    {
        TermVar(value)
    }

    /// The value, if the variable is set.
    pub fn value(&self) -> (r: Option<&str>)
        ensures
            r.is_some() == self@.is_some(),
            r matches Some(s) ==> self@ == Some(s@),
    {
        match &self.0 {
            Some(s) => Some(s.as_str()),
            None => None,
        }
    }

    /// Whether the variable is set, be it to the empty string.
    pub fn is_set(&self) -> (r: bool)
        ensures
            r == self@.is_some(),
    {
        self.0.is_some()
    }

    /// Whether the variable switches its feature on.
    pub fn is_truthy(&self) -> (r: bool)
        ensures
            r == truthy(self@),
    {
        match &self.0 {
            Some(s) => {
                let s: &str = s.as_str();
                !s.is_empty() && !equals_ignoring_case(s, "0") && !equals_ignoring_case(
                    s,
                    "false",
                )
            },
            None => false,
        }
    }

    /// The color level that the variable names, if it names one.
    pub fn as_level(&self) -> (r: Option<u8>)
        ensures
            match r {
                Some(n) => level_of(self@) == Some(n as nat),
                None => level_of(self@) is None,
            },
    {
        match &self.0 {
            Some(s) => {
                let chars = chars_of(s.as_str());
                parse_up_to(chars.as_slice(), 3)
            },
            None => None,
        }
    }

    /// Whether the variable is set and equal to `literal`, ASCII case ignored.
    pub fn equals_ignored_case(&self, literal: &str) -> (r: bool)
        ensures
            r == is_token(self@, literal@),
    {
        match &self.0 {
            Some(s) => equals_ignoring_case(s.as_str(), literal),
            None => false,
        }
    }

    /// Whether the variable is set and `substring` stands somewhere in its
    /// value, ASCII case ignored.
    pub fn contains_ignored_case(&self, substring: &str) -> (r: bool)
        ensures
            r == holds_token(self@, substring@),
    {
        match &self.0 {
            Some(s) => contains_ignoring_case(s.as_str(), substring),
            None => false,
        }
    }

    /// Whether the variable is set and `substring` stands somewhere in its
    /// value, character for character.
    pub fn contains(&self, substring: &str) -> (r: bool)
        ensures
            r == holds(self@, substring@),
    {
        match &self.0 {
            Some(s) => contains(s.as_str(), substring),
            None => false,
        }
    }

    /// Whether the variable is set and its value begins with `prefix`,
    /// character for character.
    pub fn starts_with(&self, prefix: &str) -> (r: bool)
        ensures
            r == begins_with(self@, prefix@),
    {
        match &self.0 {
            Some(s) => starts_with(s.as_str(), prefix),
            None => false,
        }
    }
}

impl Default for TermVar {
    /// A variable that is not set.
    fn default() -> (r: TermVar)
        ensures
            r@ is None,
    {
        TermVar(None)
    }
}

/// A variable that switches its feature on: one set to `1`.
pub fn truthy_var() -> (r: TermVar)
    ensures
        r@ == Some("1"@),
        truthy(r@),
{
    proof {
        reveal_strlit("1");
        reveal_strlit("0");
        reveal_strlit("false");
        assert(fold("1"@)[0] != fold("0"@)[0]);
        assert(fold("1"@).len() != fold("false"@).len());
    }
    TermVar::new("1")
}

} // verus!
