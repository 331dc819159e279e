//! Property coercion: extracting a specific semantic type (string, single
//! character, boolean, non-negative integer) from a configuration node.
//! Every coercion is total and deterministic: it yields the coerced value,
//! reports the node absent (null), or reports a type mismatch.

use vstd::prelude::*;

use crate::config::ConfigValue;

verus! {

/// The semantic type a recognized property expects.
#[derive(Clone, Copy, Debug, PartialEq, Eq, Structural)]
pub enum PropType {
    Str,
    Char,
    Bool,
    Uint,
}

/// A successfully coerced property value.
#[derive(Debug, PartialEq, Eq)]
pub enum PropValue {
    Str(String),
    Char(char),
    Bool(bool),
    Uint(u64),
}

/// The mathematical shape of a coerced property value.
pub ghost enum PropModel {
    Str(Seq<char>),
    Char(char),
    Bool(bool),
    Uint(u64),
}

impl View for PropValue {
    type V = PropModel;

    open spec fn view(&self) -> PropModel {
        match self {
            PropValue::Str(s) => PropModel::Str(s@),
            PropValue::Char(c) => PropModel::Char(*c),
            PropValue::Bool(b) => PropModel::Bool(*b),
            PropValue::Uint(n) => PropModel::Uint(*n),
        }
    }
}

impl Clone for PropValue {
    fn clone(&self) -> (r: Self)
        ensures
            r == *self,
    {
        match self {
            PropValue::Str(s) => PropValue::Str(s.clone()),
            PropValue::Char(c) => PropValue::Char(*c),
            PropValue::Bool(b) => PropValue::Bool(*b),
            PropValue::Uint(n) => PropValue::Uint(*n),
        }
    }
}

/// The outcome of coercing one configuration node.
#[derive(Debug, PartialEq, Eq)]
pub enum Coerced {
    Present(PropValue),
    Absent,
    Mismatch,
}

/// The mathematical shape of a coercion outcome.
pub ghost enum CoercedModel {
    Present(PropModel),
    Absent,
    Mismatch,
}

impl View for Coerced {
    type V = CoercedModel;

    open spec fn view(&self) -> CoercedModel {
        match self {
            Coerced::Present(v) => CoercedModel::Present(v@),
            Coerced::Absent => CoercedModel::Absent,
            Coerced::Mismatch => CoercedModel::Mismatch,
        }
    }
}

/// `a` equals the (lowercase ASCII) character `b` up to ASCII case.
pub open spec fn char_matches_ci(a: char, b: char) -> bool {
    a == b || (65 <= a as u32 && a as u32 <= 90 && a as u32 + 32 == b as u32)
}

/// `s` spells the lowercase ASCII token `t`, ignoring ASCII case.
pub open spec fn token_matches_ci(s: Seq<char>, t: Seq<char>) -> bool {
    s.len() == t.len() && forall|i: int| 0 <= i < s.len() ==> char_matches_ci(s[i], t[i])
}

/// The boolean that a string token denotes, if any: case-insensitively,
/// "true", "yes", "y" and "on" mean true; "false", "no", "n" and "off" mean
/// false.
pub open spec fn spec_bool_token(s: Seq<char>) -> Option<bool> {
    if token_matches_ci(s, "true"@) || token_matches_ci(s, "yes"@) || token_matches_ci(s, "y"@)
        || token_matches_ci(s, "on"@) {
        Some(true)
    } else if token_matches_ci(s, "false"@) || token_matches_ci(s, "no"@) || token_matches_ci(
        s,
        "n"@,
    ) || token_matches_ci(s, "off"@) {
        Some(false)
    } else {
        None
    }
}

/// What coercing node `v` to type `t` yields: absent for a null node; the
/// coerced value for a node of the expected shape; a mismatch otherwise.
pub open spec fn spec_coerce(t: PropType, v: ConfigValue) -> CoercedModel {
    match v {
        ConfigValue::Null => CoercedModel::Absent,
        _ => match t {
            PropType::Str => match v {
                ConfigValue::Str(s) => CoercedModel::Present(PropModel::Str(s@)),
                _ => CoercedModel::Mismatch,
            },
            PropType::Char => match v {
                ConfigValue::Str(s) => if s@.len() > 0 {
                    CoercedModel::Present(PropModel::Char(s@[0]))
                } else {
                    CoercedModel::Mismatch
                },
                _ => CoercedModel::Mismatch,
            },
            PropType::Bool => match v {
                ConfigValue::Bool(b) => CoercedModel::Present(PropModel::Bool(b)),
                ConfigValue::Str(s) => match spec_bool_token(s@) {
                    Some(b) => CoercedModel::Present(PropModel::Bool(b)),
                    None => CoercedModel::Mismatch,
                },
                _ => CoercedModel::Mismatch,
            },
            PropType::Uint => match v {
                ConfigValue::Int(i) => if i >= 0 {
                    CoercedModel::Present(PropModel::Uint(i as u64))
                } else {
                    CoercedModel::Mismatch
                },
                _ => CoercedModel::Mismatch,
            },
        },
    }
}

/// Compares `s` with the lowercase ASCII token `t`, ignoring ASCII case in
/// `s`.
fn str_eq_ci(s: &str, t: &str) -> (r: bool)
    ensures
        r == token_matches_ci(s@, t@),
{
    let n = s.unicode_len();
    if n != t.unicode_len() {
        return false;
    }
    for i in 0..n
        invariant
            n == s@.len(),
            n == t@.len(),
            forall|j: int| 0 <= j < i ==> char_matches_ci(s@[j], t@[j]),
    {
        let a = s.get_char(i) as u32;
        let b = t.get_char(i) as u32;
        if !(a == b || (65 <= a && a <= 90 && a + 32 == b)) {
            return false;
        }
    }
    true
}

/// The boolean denoted by the string token `s`, if any.
pub fn bool_token(s: &str) -> (r: Option<bool>)
    ensures
        r == spec_bool_token(s@),
{
    if str_eq_ci(s, "true") || str_eq_ci(s, "yes") || str_eq_ci(s, "y") || str_eq_ci(s, "on") {
        Some(true)
    } else if str_eq_ci(s, "false") || str_eq_ci(s, "no") || str_eq_ci(s, "n") || str_eq_ci(
        s,
        "off",
    ) {
        Some(false)
    } else {
        None
    }
}

/// Coerces node `v` to the semantic type `t`.
pub fn coerce(t: PropType, v: &ConfigValue) -> (r: Coerced)
    ensures
        r@ == spec_coerce(t, *v),
{
    match v {
        ConfigValue::Null => Coerced::Absent,
        _ => match t {
            PropType::Str => match v {
                ConfigValue::Str(s) => Coerced::Present(PropValue::Str(s.clone())),
                _ => Coerced::Mismatch,
            },
            PropType::Char => match v {
                ConfigValue::Str(s) => {
                    if s.as_str().is_empty() {
                        Coerced::Mismatch
                    } else {
                        Coerced::Present(PropValue::Char(s.as_str().get_char(0)))
                    }
                },
                _ => Coerced::Mismatch,
            },
            PropType::Bool => match v {
                ConfigValue::Bool(b) => Coerced::Present(PropValue::Bool(*b)),
                ConfigValue::Str(s) => match bool_token(s.as_str()) {
                    Some(b) => Coerced::Present(PropValue::Bool(b)),
                    None => Coerced::Mismatch,
                },
                _ => Coerced::Mismatch,
            },
            PropType::Uint => match v {
                ConfigValue::Int(i) => {
                    if *i >= 0 {
                        Coerced::Present(PropValue::Uint(*i as u64))
                    } else {
                        Coerced::Mismatch
                    }
                },
                _ => Coerced::Mismatch,
            },
        },
    }
}

} // verus!
