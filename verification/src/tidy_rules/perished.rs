//! The "perished" rule: a file whose last access is older than a configured
//! duration is unused.
use vstd::prelude::*;

use crate::file_info::{clone_score, file_model, score_model, FileInfo, FileInfoModel, TidyScore, TidyScoreModel, Timestamp};
use crate::rule_params::{into_string, param_into_string, RuleParams};
use crate::text::{
    chars_eq, chars_of, parse_i64, parse_i64_spec, split_whitespace, to_chars, whitespace_tokens,
};

verus! {

/// A length of time, in whole seconds.
#[derive(Clone, Copy, Debug, PartialEq, Eq, Structural)]
pub struct Duration {
    pub secs: i64,
}

/// Why a duration could not be read.
#[derive(Clone, Copy, Debug, PartialEq, Eq, Structural)]
pub enum DurationError {
    /// Fewer than two whitespace-separated words.
    NoDuration,
    /// The first word is not an `i64`.
    InvalidNumber,
    /// The second word is not one of `days`, `weeks`, `months`, `years`.
    UnsupportedUnit,
}

/// The largest number of whole seconds a `chrono::TimeDelta` holds
/// (`i64::MAX / 1000`); the smallest is its negation.
pub open spec fn max_delta_secs() -> int {
    9_223_372_036_854_775
}

/// The first and the last second that a `DateTime<Utc>` can hold
/// (-262143-01-01T00:00:00 and +262142-12-31T23:59:59).
pub open spec fn min_datetime_secs() -> int {
    -8_334_601_315_200
}

pub open spec fn max_datetime_secs() -> int {
    8_210_266_876_799
}

/// `t` is an instant that a `DateTime<Utc>` can hold.
pub open spec fn datetime_in_range(t: Timestamp) -> bool {
    &&& min_datetime_secs() <= t.secs <= max_datetime_secs()
    &&& t.nanos < 1_000_000_000
}

/// The seconds in one unit: a day for `days`, a week for `weeks`, 30 days
/// for `months` and 365 days for `years`; `None` for any other word.
pub open spec fn unit_seconds(unit: Seq<char>) -> Option<int> {
    if unit == seq!['d', 'a', 'y', 's'] {
        Some(86400)
    } else if unit == seq!['w', 'e', 'e', 'k', 's'] {
        Some(604800)
    } else if unit == seq!['m', 'o', 'n', 't', 'h', 's'] {
        Some(2592000)
    } else if unit == seq!['y', 'e', 'a', 'r', 's'] {
        Some(31536000)
    } else {
        None
    }
}

/// What reading `s` as "<number> <unit>" gives, as whole seconds: the number
/// times the seconds in the unit.
pub open spec fn parse_duration_spec(s: Seq<char>) -> Result<int, DurationError> {
    let toks = whitespace_tokens(s);
    if toks.len() < 2 {
        Err(DurationError::NoDuration)
    } else {
        match parse_i64_spec(toks[0]) {
            None => Err(DurationError::InvalidNumber),
            Some(n) => match unit_seconds(toks[1]) {
                None => Err(DurationError::UnsupportedUnit),
                Some(f) => Ok(n * f),
            },
        }
    }
}

/// Reading `s` overflows: the duration it denotes does not fit in a
/// `TimeDelta`.
pub open spec fn duration_overflows(s: Seq<char>) -> bool {
    let toks = whitespace_tokens(s);
    if toks.len() < 2 {
        false
    } else {
        match parse_i64_spec(toks[0]) {
            None => false,
            Some(n) => match unit_seconds(toks[1]) {
                None => false,
                Some(f) => !(-max_delta_secs() <= n * f <= max_delta_secs()),
            },
        }
    }
}

/// The seconds in a unit word, as [`unit_seconds`] states them.
fn seconds_of(unit: &Vec<char>) -> (res: Option<i64>)
    ensures
        match res {
            Some(f) => unit_seconds(unit@) == Some(f as int) && 0 < f <= 31536000,
            None => unit_seconds(unit@) is None,
        },
{
    let days = chars_of(&['d', 'a', 'y', 's']);
    let weeks = chars_of(&['w', 'e', 'e', 'k', 's']);
    let months = chars_of(&['m', 'o', 'n', 't', 'h', 's']);
    let years = chars_of(&['y', 'e', 'a', 'r', 's']);
    assert(days@ =~= seq!['d', 'a', 'y', 's']);
    assert(weeks@ =~= seq!['w', 'e', 'e', 'k', 's']);
    assert(months@ =~= seq!['m', 'o', 'n', 't', 'h', 's']);
    assert(years@ =~= seq!['y', 'e', 'a', 'r', 's']);
    if chars_eq(unit, &days) {
        Some(86400)
    } else if chars_eq(unit, &weeks) {
        Some(604800)
    } else if chars_eq(unit, &months) {
        Some(2592000)
    } else if chars_eq(unit, &years) {
        Some(31536000)
    } else {
        None
    }
}

/// Whether reading `duration_str` as a duration overflows
/// ([`duration_overflows`]); such a text has no duration.
pub fn duration_str_overflows(duration_str: &str) -> (res: bool)
    ensures
        res == duration_overflows(duration_str@),
{
    let cs = to_chars(duration_str);
    let parts = split_whitespace(&cs);
    if parts.len() < 2 {
        return false;
    }
    match parse_i64(&parts[0]) {
        None => false,
        Some(n) => match seconds_of(&parts[1]) {
            None => false,
            Some(f) => match (n as i128).checked_mul(f as i128) {
                None => true,
                Some(total) => total < -9_223_372_036_854_775i128 || total
                    > 9_223_372_036_854_775i128,
            },
        },
    }
}

/// Reads a duration written "<number> <unit>", where the number is an `i64`
/// and the unit one of `days`, `weeks`, `months` (30 days, an
/// approximation) or `years` (365 days); words after the second are
/// ignored.
pub fn parse_duration(duration_str: &str) -> (res: Result<Duration, DurationError>)
    requires
        !duration_overflows(duration_str@),
    ensures
        match res {
            Ok(d) => parse_duration_spec(duration_str@) == Ok::<int, DurationError>(d.secs as int),
            Err(e) => parse_duration_spec(duration_str@) == Err::<int, DurationError>(e),
        },
{
    let cs = to_chars(duration_str);
    let parts = split_whitespace(&cs);
    if parts.len() < 2 {
        return Err(DurationError::NoDuration);
    }
    let duration: i64 = match parse_i64(&parts[0]) {
        Some(n) => n,
        None => return Err(DurationError::InvalidNumber),
    };
    match seconds_of(&parts[1]) {
        None => Err(DurationError::UnsupportedUnit),
        Some(f) => Ok(Duration { secs: duration * f }),
    }
}

/// `now` moved by `d`; `None` when the result is not an instant that a
/// `DateTime<Utc>` can hold.
pub open spec fn add_duration_spec(now: Timestamp, d: int) -> Option<Timestamp> {
    if min_datetime_secs() <= now.secs + d <= max_datetime_secs() {
        Some(Timestamp { secs: (now.secs + d) as i64, nanos: now.nanos })
    } else {
        None
    }
}

/// The expiration date: `now` moved forward by the duration that
/// `expiration_duration` reads as.
pub open spec fn expiration_spec(expiration_duration: Seq<char>, now: Timestamp) -> Result<
    Option<Timestamp>,
    DurationError,
> {
    match parse_duration_spec(expiration_duration) {
        Err(e) => Err(e),
        Ok(d) => Ok(add_duration_spec(now, d)),
    }
}

/// The expiration date is defined: reading the duration does not overflow
/// and, when it reads, `now` moved by it stays within the range of
/// `DateTime<Utc>` (elsewhere there is no expiration date).
pub open spec fn expiration_defined(expiration_duration: Seq<char>, now: Timestamp) -> bool {
    &&& datetime_in_range(now)
    &&& !duration_overflows(expiration_duration)
    &&& match expiration_spec(expiration_duration, now) {
        Ok(o) => o is Some,
        Err(_) => true,
    }
}

/// The date at which a file last accessed now would be found perished:
/// `now` plus the duration that `expiration_duration` reads as. The caller
/// reads the clock (`Utc::now()`) and hands its reading in as `now`.
pub fn calculate_expiration_date(expiration_duration: &str, now: Timestamp) -> (res: Result<
    Timestamp,
    DurationError,
>)
    requires
        expiration_defined(expiration_duration@, now),
    ensures
        match res {
            Ok(t) => expiration_spec(expiration_duration@, now) == Ok::<
                Option<Timestamp>,
                DurationError,
            >(Some(t)),
            Err(e) => expiration_spec(expiration_duration@, now) == Err::<
                Option<Timestamp>,
                DurationError,
            >(e),
        },
{
    let d = parse_duration(expiration_duration)?;
    Ok(Timestamp { secs: now.secs + d.secs, nanos: now.nanos })
}

/// The score with nothing found.
pub open spec fn empty_score() -> TidyScoreModel {
    TidyScoreModel { misnamed: false, unused: false, duplicated: None }
}

/// The expiration duration the rule reads from its parameters, if any.
pub open spec fn expiration_param(raw_params: RuleParams) -> Option<Seq<char>> {
    match raw_params.spec_get(seq!['e', 'x', 'p', 'i', 'r', 'a', 't', 'i', 'o', 'n', '_', 'd', 'u', 'r', 'a', 't', 'i', 'o', 'n']) {
        Some(v) => param_into_string(v),
        None => None,
    }
}

/// The rule is defined for these inputs: when the
/// parameter reads, the expiration date is defined and the last access is
/// an instant that a `DateTime<Utc>` can hold.
pub open spec fn apply_perished_defined(file: FileInfoModel, raw_params: RuleParams, now: Timestamp) -> bool {
    match expiration_param(raw_params) {
        None => true,
        Some(s) => expiration_defined(s, now) && (expiration_spec(s, now) is Ok ==> datetime_in_range(file.last_accessed)),
    }
}

/// The score the rule gives. Without a readable `expiration_duration`
/// parameter, or when it does not read as a duration, nothing is found.
/// Otherwise the file is perished when its last access is before the
/// expiration date: a file that already had a score keeps it, with `unused`
/// set to that; a file without one gets `unused` set when it is *not*
/// perished.
pub open spec fn apply_perished_spec(file: FileInfoModel, raw_params: RuleParams, now: Timestamp) -> TidyScoreModel {
    match expiration_param(raw_params) {
        None => empty_score(),
        Some(s) => match expiration_spec(s, now) {
            Err(_) => empty_score(),
            Ok(o) => {
                let perished = file.last_accessed.spec_before(o.unwrap());
                match file.tidy_score {
                    Some(score) => TidyScoreModel { unused: perished, ..score },
                    None => if perished {
                        empty_score()
                    } else {
                        TidyScoreModel { misnamed: false, unused: true, duplicated: None }
                    },
                }
            },
        },
    }
}

fn expiration_key() -> (res: String)
    ensures
        res@ == seq!['e', 'x', 'p', 'i', 'r', 'a', 't', 'i', 'o', 'n', '_', 'd', 'u', 'r', 'a', 't', 'i', 'o', 'n'],
{
    let w = chars_of(&['e', 'x', 'p', 'i', 'r', 'a', 't', 'i', 'o', 'n', '_', 'd', 'u', 'r', 'a', 't', 'i', 'o', 'n']);
    assert(w@ =~= seq!['e', 'x', 'p', 'i', 'r', 'a', 't', 'i', 'o', 'n', '_', 'd', 'u', 'r', 'a', 't', 'i', 'o', 'n']);
    crate::text::from_chars(&w)
}

/// Whether [`apply_perished`] is defined for these inputs
/// ([`apply_perished_defined`]).
pub fn apply_perished_is_defined(file_info: &FileInfo, raw_params: &RuleParams, now: Timestamp) -> (res: bool)
    ensures
        res == apply_perished_defined(file_model(*file_info), *raw_params, now),
{
    let key = expiration_key();
    let s = match raw_params.get(key.as_str()) {
        Some(v) => match into_string(v) {
            Some(s) => s,
            None => return true,
        },
        None => return true,
    };
    if !(now.nanos < 1_000_000_000 && -8_334_601_315_200 <= now.secs && now.secs
        <= 8_210_266_876_799) {
        return false;
    }
    if duration_str_overflows(s.as_str()) {
        return false;
    }
    match parse_duration(s.as_str()) {
        Err(_) => true,
        Ok(d) => {
            let t = now.secs as i128 + d.secs as i128;
            if t < -8_334_601_315_200 || t > 8_210_266_876_799 {
                return false;
            }
            let la = file_info.last_accessed;
            la.nanos < 1_000_000_000 && -8_334_601_315_200 <= la.secs && la.secs
                <= 8_210_266_876_799
        },
    }
}

/// The "perished" rule applied to a file at the instant `now`, as
/// [`apply_perished_spec`] states it.
pub fn apply_perished(file_info: &FileInfo, raw_params: &RuleParams, now: Timestamp) -> (res: TidyScore)
    requires
        apply_perished_defined(file_model(*file_info), *raw_params, now),
    ensures
        score_model(res) == apply_perished_spec(file_model(*file_info), *raw_params, now),
{
    let key = expiration_key();
    let expiration_duration = match raw_params.get(key.as_str()) {
        Some(v) => match into_string(v) {
            Some(s) => s,
            None => return TidyScore::new(false, false, None),
        },
        None => return TidyScore::new(false, false, None),
    };
    let expiration_date = match calculate_expiration_date(expiration_duration.as_str(), now) {
        Ok(d) => d,
        Err(_) => return TidyScore::new(false, false, None),
    };
    let perished = file_info.last_accessed.before(&expiration_date);
    match &file_info.tidy_score {
        Some(score) => {
            let mut s = clone_score(score);
            s.unused = perished;
            s
        },
        None => {
            if perished {
                TidyScore::new(false, false, None)
            } else {
                TidyScore::new(false, true, None)
            }
        },
    }
}

/// The perished rule compares the last access with the expiration date,
/// `now` moved by the duration the parameter reads as (forward for a
/// positive duration, back for a negative one): a file that had a score
/// keeps its other findings and is unused exactly when it was last
/// accessed before that date; a file without a score is given one whose
/// only possible finding is `unused`, set when it was *not* accessed
/// before that date. Without a parameter that reads as a duration,
/// nothing is found.
pub proof fn lemma_perished_compares_with_expiration(file: FileInfoModel, raw_params: RuleParams, now: Timestamp)
    requires
        apply_perished_defined(file, raw_params, now),
    ensures
        ({
            let res = apply_perished_spec(file, raw_params, now);
            match expiration_param(raw_params) {
                Some(s) => match parse_duration_spec(s) {
                    Ok(d) => {
                        let before = file.last_accessed.secs < now.secs + d || (file.last_accessed.secs
                            == now.secs + d && file.last_accessed.nanos < now.nanos);
                        match file.tidy_score {
                            Some(score) => res.unused == before && res.misnamed == score.misnamed
                                && res.duplicated == score.duplicated,
                            None => res.unused == !before && !res.misnamed && res.duplicated is None,
                        }
                    },
                    Err(_) => !res.misnamed && !res.unused && res.duplicated is None,
                },
                None => !res.misnamed && !res.unused && res.duplicated is None,
            }
        }),
{
}

/// The units are whole numbers of days of fixed length: a week is 7 days,
/// a month 30 and a year 365, and the other words are no unit.
pub proof fn lemma_units_are_days()
    ensures
        unit_seconds(seq!['d', 'a', 'y', 's']) == Some(86400int),
        unit_seconds(seq!['w', 'e', 'e', 'k', 's']) == Some(7 * 86400int),
        unit_seconds(seq!['m', 'o', 'n', 't', 'h', 's']) == Some(30 * 86400int),
        unit_seconds(seq!['y', 'e', 'a', 'r', 's']) == Some(365 * 86400int),
        forall|w: Seq<char>| #[trigger] unit_seconds(w) matches Some(f) ==> f > 0 && f % 86400 == 0,
{
}

/// A duration has the sign of its number: reading "<n> <unit>" gives a
/// positive duration for a positive `n`, a negative one for a negative `n`
/// and zero for zero.
pub proof fn lemma_duration_has_the_sign_of_its_number(s: Seq<char>)
    ensures
        parse_duration_spec(s) matches Ok(d) ==> ({
            let n = parse_i64_spec(whitespace_tokens(s)[0])->0;
            &&& (n > 0 <==> d > 0)
            &&& (n < 0 <==> d < 0)
            &&& (n == 0 <==> d == 0)
        }),
{
    if let Ok(d) = parse_duration_spec(s) {
        let n = parse_i64_spec(whitespace_tokens(s)[0])->0;
        let f = unit_seconds(whitespace_tokens(s)[1])->0;
        assert(f > 0);
        assert(d == n * f);
        assert((n > 0 <==> n * f > 0) && (n < 0 <==> n * f < 0)) by (nonlinear_arith)
            requires
                f > 0,
        {
        }
    }
}

} // verus!
