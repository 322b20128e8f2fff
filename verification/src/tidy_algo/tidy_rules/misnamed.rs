//! The "misnamed" rule: a file whose pretty path does not match the
//! configured pattern is misnamed.
use vstd::prelude::*;

use crate::file_info::{clone_score, file_model, score_model, FileInfo, FileInfoModel, TidyScore, TidyScoreModel};
use crate::rule_params::{into_string, param_into_string, RuleParams};

verus! {

/// Whether `haystack` holds a match of the regular expression `pattern`
/// (`Regex::new(pattern)?.is_match(haystack)`); `None` when `pattern` is not
/// a valid regular expression.
pub uninterp spec fn regex_match(pattern: Seq<char>, haystack: Seq<char>) -> Option<bool>;

/// `regex::Regex::new` followed by `Regex::is_match`. The contract claims
/// only that the answer is the one named [`regex_match`], a function of the
/// pattern and the text alone: `None` exactly when compiling fails.
#[verifier::external_body]
fn regex_is_match(pattern: &str, haystack: &str) -> (res: Option<bool>)
    ensures
        res == regex_match(pattern@, haystack@),
{
    match regex::Regex::new(pattern) {
        Ok(re) => Some(re.is_match(haystack)),
        Err(_) => None,
    }
}

/// The pattern the rule reads from its parameters, if any.
pub open spec fn pattern_param(raw_params: RuleParams) -> Option<Seq<char>> {
    match raw_params.spec_get(seq!['p', 'a', 't', 't', 'e', 'r', 'n']) {
        Some(v) => param_into_string(v),
        None => None,
    }
}

/// The rule is defined: a pattern it reads compiles.
pub open spec fn misnamed_defined(file: FileInfoModel, raw_params: RuleParams) -> bool {
    match pattern_param(raw_params) {
        None => true,
        Some(p) => regex_match(p, file.pretty_path) is Some,
    }
}

/// The score the rule gives: the file's score (or one with nothing found),
/// with `misnamed` set when a pattern is given and the pretty path does not
/// match it.
pub open spec fn misnamed_spec(file: FileInfoModel, raw_params: RuleParams) -> TidyScoreModel {
    let base = match file.tidy_score {
        Some(s) => s,
        None => TidyScoreModel { misnamed: false, unused: false, duplicated: None },
    };
    match pattern_param(raw_params) {
        None => base,
        Some(p) => if regex_match(p, file.pretty_path) == Some(true) {
            base
        } else {
            TidyScoreModel { misnamed: true, ..base }
        },
    }
}

fn pattern_key() -> (res: String)
    ensures
        res@ == seq!['p', 'a', 't', 't', 'e', 'r', 'n'],
{
    let v = crate::text::chars_of(&['p', 'a', 't', 't', 'e', 'r', 'n']);
    assert(v@ =~= seq!['p', 'a', 't', 't', 'e', 'r', 'n']);
    crate::text::from_chars(&v)
}

/// The "misnamed" rule applied to a file, as [`misnamed_spec`] states it.
pub fn misnamed(file_info: &FileInfo, raw_params: &RuleParams) -> (res: TidyScore)
    requires
        misnamed_defined(file_model(*file_info), *raw_params),
    ensures
        score_model(res) == misnamed_spec(file_model(*file_info), *raw_params),
{
    match misnamed_checked(file_info, raw_params) {
        Some(s) => s,
        None => TidyScore::new(false, false, None),
    }
}

/// The "misnamed" rule, for any parameters: `None` exactly where the rule is
/// not defined (the pattern does not compile), the rule's score elsewhere.
pub fn misnamed_checked(file_info: &FileInfo, raw_params: &RuleParams) -> (res: Option<TidyScore>)
    ensures
        match res {
            Some(s) => misnamed_defined(file_model(*file_info), *raw_params) && score_model(s)
                == misnamed_spec(file_model(*file_info), *raw_params),
            None => !misnamed_defined(file_model(*file_info), *raw_params),
        },
{
    let mut new_score = match &file_info.tidy_score {
        Some(score) => clone_score(score),
        None => TidyScore::new(false, false, None),
    };
    let key = pattern_key();
    let pattern = match raw_params.get(key.as_str()) {
        None => return Some(new_score),
        Some(v) => v,
    };
    let pattern_str = match into_string(pattern) {
        Some(p) => p,
        None => return Some(new_score),
    };
    match regex_is_match(pattern_str.as_str(), file_info.pretty_path.as_str()) {
        None => None,
        Some(true) => Some(new_score),
        Some(false) => {
            new_score.misnamed = true;
            Some(new_score)
        },
    }
}

/// The score the misnamed rule starts from: the file's own score, or one
/// with nothing found.
pub open spec fn score_before(file: FileInfoModel) -> TidyScoreModel {
    match file.tidy_score {
        Some(s) => s,
        None => TidyScoreModel { misnamed: false, unused: false, duplicated: None },
    }
}

/// The misnamed rule flags a file exactly when its pretty path holds no
/// match of the pattern (`is_match` searches the whole text, so a match of
/// any part of the path clears the file); it keeps an earlier misnamed
/// finding, never touches the unused finding or the duplicates, and
/// without a pattern it changes nothing.
pub proof fn lemma_misnamed_flags_unmatched_paths(file: FileInfoModel, raw_params: RuleParams)
    requires
        misnamed_defined(file, raw_params),
    ensures
        ({
            let res = misnamed_spec(file, raw_params);
            let before = score_before(file);
            &&& res.unused == before.unused
            &&& res.duplicated == before.duplicated
            &&& match pattern_param(raw_params) {
                None => res.misnamed == before.misnamed,
                Some(p) => res.misnamed == (before.misnamed || regex_match(p, file.pretty_path)
                    == Some(false)),
            }
        }),
{
    if let Some(p) = pattern_param(raw_params) {
        let r = regex_match(p, file.pretty_path);
        assert(r is Some);
        if r != Some(true) {
            assert(r == Some(false));
        }
    }
}

} // verus!
