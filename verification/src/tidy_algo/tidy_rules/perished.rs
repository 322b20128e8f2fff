//! The "perished" rule in its `max` form: it checks that its `max`
//! parameter reads as "<count> <unit>" and then finds the file unused.
use vstd::prelude::*;

use crate::file_info::{score_model, FileInfo, TidyScore, TidyScoreModel};
use crate::rule_params::{into_string, param_into_string, RuleParams};
use crate::text::{
    chars_eq, chars_of, first_two_pieces, parse_u64, parse_u64_spec, split_first_two, to_chars,
};

verus! {

/// The units the rule accepts.
pub open spec fn valid_unit(unit: Seq<char>) -> bool {
    ||| unit == seq!['d', 'a', 'y']
    ||| unit == seq!['w', 'e', 'e', 'k']
    ||| unit == seq!['m', 'o', 'n', 't', 'h']
    ||| unit == seq!['y', 'e', 'a', 'r']
}

/// The `max` parameter reads: it converts to a string whose text before the
/// first space is a `u64` and whose text between the first and second space
/// (or after the first) is a valid unit.
pub open spec fn max_param_valid(raw_params: RuleParams) -> bool {
    match raw_params.spec_get(seq!['m', 'a', 'x']) {
        None => false,
        Some(v) => match param_into_string(v) {
            None => false,
            Some(s) => {
                let pieces = first_two_pieces(s, ' ');
                &&& parse_u64_spec(pieces.0) is Some
                &&& pieces.1 is Some
                &&& valid_unit(pieces.1->0)
            },
        },
    }
}

/// The rule applied to a file: unused when the `max` parameter reads (see
/// [`max_param_valid`]), nothing found otherwise.
pub fn perished(file_info: &FileInfo, raw_params: &RuleParams) -> (res: TidyScore)
    ensures
        score_model(res) == (TidyScoreModel {
            misnamed: false,
            unused: max_param_valid(*raw_params),
            duplicated: None,
        }),
{
    let key_chars = chars_of(&['m', 'a', 'x']);
    assert(key_chars@ =~= seq!['m', 'a', 'x']);
    let key = crate::text::from_chars(&key_chars);
    let time_string_raw = match raw_params.get(key.as_str()) {
        Some(v) => match into_string(v) {
            Some(s) => s,
            None => return TidyScore::new(false, false, None),
        },
        None => return TidyScore::new(false, false, None),
    };
    let cs = to_chars(time_string_raw.as_str());
    let (amount, unit) = split_first_two(&cs, ' ');
    match parse_u64(&amount) {
        Some(_) => {},
        None => return TidyScore::new(false, false, None),
    }
    let unit = match unit {
        Some(u) => u,
        None => return TidyScore::new(false, false, None),
    };
    let day = chars_of(&['d', 'a', 'y']);
    let week = chars_of(&['w', 'e', 'e', 'k']);
    let month = chars_of(&['m', 'o', 'n', 't', 'h']);
    let year = chars_of(&['y', 'e', 'a', 'r']);
    assert(day@ =~= seq!['d', 'a', 'y']);
    assert(week@ =~= seq!['w', 'e', 'e', 'k']);
    assert(month@ =~= seq!['m', 'o', 'n', 't', 'h']);
    assert(year@ =~= seq!['y', 'e', 'a', 'r']);
    if chars_eq(&unit, &day) || chars_eq(&unit, &week) || chars_eq(&unit, &month) || chars_eq(
        &unit,
        &year,
    ) {
        TidyScore::new(false, true, None)
    } else {
        TidyScore::new(false, false, None)
    }
}

} // verus!
