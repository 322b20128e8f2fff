//! The parameters of a tidy rule, as they are read from a rules file: a
//! table from keys to configuration values.
use vstd::prelude::*;

use crate::text::{
    chars_eq, chars_of, decimal, decimal_chars, decimal_chars_signed, decimal_signed, from_chars,
    parse_u64, parse_u64_spec, to_chars, to_lowercase, unicode_lowercase,
};

verus! {

/// A floating-point configuration value, held by what the rules read of it:
/// its `Display` rendering and its value rounded to the nearest integer and
/// saturated into a `u64` (`value.round() as u64`).
#[derive(Clone, Debug)]
pub struct FloatValue {
    pub display: String,
    pub rounded: u64,
}

/// A configuration value. Tables and arrays are held by their `Display`
/// rendering, the only thing the rules read of them.
#[derive(Clone, Debug)]
pub enum ParamValue {
    Nil,
    Boolean(bool),
    I64(i64),
    I128(i128),
    U64(u64),
    U128(u128),
    Float(FloatValue),
    Str(String),
    Table(String),
    Array(String),
}

/// The `Display` rendering of a value.
pub open spec fn param_display(v: ParamValue) -> Seq<char> {
    match v {
        ParamValue::Nil => seq!['n', 'i', 'l'],
        ParamValue::Boolean(b) => if b {
            seq!['t', 'r', 'u', 'e']
        } else {
            seq!['f', 'a', 'l', 's', 'e']
        },
        ParamValue::I64(n) => decimal_signed(n as int),
        ParamValue::I128(n) => decimal_signed(n as int),
        ParamValue::U64(n) => decimal(n as nat),
        ParamValue::U128(n) => decimal(n as nat),
        ParamValue::Float(f) => f.display@,
        ParamValue::Str(s) => s@,
        ParamValue::Table(d) => d@,
        ParamValue::Array(d) => d@,
    }
}

/// What `Value::into_string` gives: strings as they are, scalars by their
/// rendering; nil, tables and arrays cannot be converted (`None`).
pub open spec fn param_into_string(v: ParamValue) -> Option<Seq<char>> {
    match v {
        ParamValue::Nil => None,
        ParamValue::Table(_) => None,
        ParamValue::Array(_) => None,
        _ => Some(param_display(v)),
    }
}

/// The words that `Value::into_uint` reads as 1 and as 0.
pub open spec fn true_word(s: Seq<char>) -> bool {
    s == seq!['t', 'r', 'u', 'e'] || s == seq!['o', 'n'] || s == seq!['y', 'e', 's']
}

pub open spec fn false_word(s: Seq<char>) -> bool {
    s == seq!['f', 'a', 'l', 's', 'e'] || s == seq!['o', 'f', 'f'] || s == seq!['n', 'o']
}

/// What `Value::into_uint` gives: integers that fit, booleans as 1 or 0,
/// floats rounded, strings whose lowercase form is a boolean word or that
/// parse as a `u64`; `None` for anything else.
pub open spec fn param_into_uint(v: ParamValue) -> Option<u64> {
    match v {
        ParamValue::U64(n) => Some(n),
        ParamValue::U128(n) => if n <= u64::MAX {
            Some(n as u64)
        } else {
            None
        },
        ParamValue::I64(n) => if n >= 0 {
            Some(n as u64)
        } else {
            None
        },
        ParamValue::I128(n) => if 0 <= n <= u64::MAX {
            Some(n as u64)
        } else {
            None
        },
        ParamValue::Str(s) => {
            let l = unicode_lowercase(s@);
            if true_word(l) {
                Some(1)
            } else if false_word(l) {
                Some(0)
            } else {
                parse_u64_spec(s@)
            }
        },
        ParamValue::Boolean(b) => if b {
            Some(1)
        } else {
            Some(0)
        },
        ParamValue::Float(f) => Some(f.rounded),
        _ => None,
    }
}

/// The `Display` rendering of a value (`value.to_string()`).
pub fn to_display_string(v: &ParamValue) -> (res: String)
    ensures
        res@ == param_display(*v),
{
    match v {
        ParamValue::Nil => {
            let w = chars_of(&['n', 'i', 'l']);
            assert(w@ =~= seq!['n', 'i', 'l']);
            from_chars(&w)
        },
        ParamValue::Boolean(b) => {
            if *b {
                let w = chars_of(&['t', 'r', 'u', 'e']);
                assert(w@ =~= seq!['t', 'r', 'u', 'e']);
                from_chars(&w)
            } else {
                let w = chars_of(&['f', 'a', 'l', 's', 'e']);
                assert(w@ =~= seq!['f', 'a', 'l', 's', 'e']);
                from_chars(&w)
            }
        },
        ParamValue::I64(n) => from_chars(&decimal_chars_signed(*n as i128)),
        ParamValue::I128(n) => from_chars(&decimal_chars_signed(*n)),
        ParamValue::U64(n) => from_chars(&decimal_chars(*n as u128)),
        ParamValue::U128(n) => from_chars(&decimal_chars(*n)),
        ParamValue::Float(f) => f.display.clone(),
        ParamValue::Str(s) => s.clone(),
        ParamValue::Table(d) => d.clone(),
        ParamValue::Array(d) => d.clone(),
    }
}

/// `Value::into_string`, as [`param_into_string`] states it.
pub fn into_string(v: &ParamValue) -> (res: Option<String>)
    ensures
        match res {
            Some(s) => param_into_string(*v) == Some(s@),
            None => param_into_string(*v) is None,
        },
{
    match v {
        ParamValue::Nil => None,
        ParamValue::Table(_) => None,
        ParamValue::Array(_) => None,
        _ => Some(to_display_string(v)),
    }
}

/// `Value::into_uint`, as [`param_into_uint`] states it.
pub fn into_uint(v: &ParamValue) -> (res: Option<u64>)
    ensures
        res == param_into_uint(*v),
{
    match v {
        ParamValue::U64(n) => Some(*n),
        ParamValue::U128(n) => if *n <= u64::MAX as u128 {
            Some(*n as u64)
        } else {
            None
        },
        ParamValue::I64(n) => if *n >= 0 {
            Some(*n as u64)
        } else {
            None
        },
        ParamValue::I128(n) => if 0 <= *n && *n <= u64::MAX as i128 {
            Some(*n as u64)
        } else {
            None
        },
        ParamValue::Str(s) => {
            let lower = to_lowercase(s.as_str());
            let l = to_chars(lower.as_str());
            let t = chars_of(&['t', 'r', 'u', 'e']);
            let on = chars_of(&['o', 'n']);
            let yes = chars_of(&['y', 'e', 's']);
            let f = chars_of(&['f', 'a', 'l', 's', 'e']);
            let off = chars_of(&['o', 'f', 'f']);
            let no = chars_of(&['n', 'o']);
            assert(t@ =~= seq!['t', 'r', 'u', 'e']);
            assert(on@ =~= seq!['o', 'n']);
            assert(yes@ =~= seq!['y', 'e', 's']);
            assert(f@ =~= seq!['f', 'a', 'l', 's', 'e']);
            assert(off@ =~= seq!['o', 'f', 'f']);
            assert(no@ =~= seq!['n', 'o']);
            if chars_eq(&l, &t) || chars_eq(&l, &on) || chars_eq(&l, &yes) {
                Some(1)
            } else if chars_eq(&l, &f) || chars_eq(&l, &off) || chars_eq(&l, &no) {
                Some(0)
            } else {
                let digits = to_chars(s.as_str());
                parse_u64(&digits)
            }
        },
        ParamValue::Boolean(b) => if *b {
            Some(1)
        } else {
            Some(0)
        },
        ParamValue::Float(f) => Some(f.rounded),
        _ => None,
    }
}

/// A table of rule parameters: keys with their values. A table read from a
/// file holds each key once.
#[derive(Clone, Debug)]
pub struct RuleParams {
    pub entries: Vec<(String, ParamValue)>,
}

/// The value of `key` in `entries` (the first entry with that key).
pub open spec fn lookup(entries: Seq<(String, ParamValue)>, key: Seq<char>) -> Option<ParamValue>
    decreases entries.len(),
{
    if entries.len() == 0 {
        None
    } else if entries[0].0@ == key {
        Some(entries[0].1)
    } else {
        lookup(entries.drop_first(), key)
    }
}

impl RuleParams {
    /// An empty table.
    pub fn new() -> (res: RuleParams)
        ensures
            res.entries@.len() == 0,
    {
        RuleParams { entries: Vec::new() }
    }

    /// The value of `key` in this table.
    pub open spec fn spec_get(&self, key: Seq<char>) -> Option<ParamValue> {
        lookup(self.entries@, key)
    }

    /// The value of `key` in this table, if it has one (`HashMap::get`).
    pub fn get(&self, key: &str) -> (res: Option<&ParamValue>)
        ensures
            match res {
                Some(v) => self.spec_get(key@) == Some(*v),
                None => self.spec_get(key@) is None,
            },
    {
        let k = to_chars(key);
        let mut i: usize = 0;
        assert(self.entries@.subrange(0, self.entries@.len() as int) =~= self.entries@);
        while i < self.entries.len()
            invariant
                i <= self.entries@.len(),
                k@ == key@,
                lookup(self.entries@, key@) == lookup(
                    self.entries@.subrange(i as int, self.entries@.len() as int),
                    key@,
                ),
            decreases self.entries.len() - i,
        {
            let ghost rest = self.entries@.subrange(i as int, self.entries@.len() as int);
            assert(rest[0] == self.entries@[i as int]);
            let ek = to_chars(self.entries[i].0.as_str());
            if chars_eq(&ek, &k) {
                return Some(&self.entries[i].1);
            }
            assert(rest.drop_first() =~= self.entries@.subrange(
                i + 1,
                self.entries@.len() as int,
            ));
            i = i + 1;
        }
        None
    }
}

} // verus!
