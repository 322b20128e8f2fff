//! The set of tidy rules: how rules are loaded from rule tables, whether a
//! rule applies to a file, how it is applied, and how the findings of a
//! file are turned into a grade.
use vstd::prelude::*;

use crate::file_info::{file_model, score_model, FileInfo, FileInfoModel, TidyScore, TidyScoreModel, Timestamp};
use crate::rule_params::{
    into_uint, param_display, param_into_uint, to_display_string, ParamValue, RuleParams,
};
use crate::text::{chars_eq, concat_chars, from_chars, to_chars};
use crate::tidy_algo::tidy_rules::misnamed::{misnamed_checked, misnamed_defined, misnamed_spec};
use crate::tidy_rules::duplicated::{aply_duplicated, aply_duplicated_spec};
use crate::tidy_rules::perished::{
    apply_perished, apply_perished_defined, apply_perished_is_defined, apply_perished_spec,
};

pub mod tidy_rules;

verus! {

/// The kind of a rule: which rule function scores a file.
#[derive(Clone, Copy, Debug, PartialEq, Eq, Structural)]
pub enum RuleKind {
    Duplicated,
    Misnamed,
    Perished,
}

/// A rule that can be applied to a file.
pub struct TidyRule {
    name: String,
    log: String,
    scope: String,
    weight: u64,
    pub params: RuleParams,
    kind: RuleKind,
}

impl TidyRule {
    pub closed spec fn spec_name(&self) -> Seq<char> {
        self.name@
    }

    pub closed spec fn spec_log(&self) -> Seq<char> {
        self.log@
    }

    pub closed spec fn spec_scope(&self) -> Seq<char> {
        self.scope@
    }

    pub closed spec fn spec_weight(&self) -> u64 {
        self.weight
    }

    pub closed spec fn spec_kind(&self) -> RuleKind {
        self.kind
    }

    pub closed spec fn spec_params(&self) -> RuleParams {
        self.params
    }

    /// A rule with the given name, log label, scope, weight, parameters and
    /// kind.
    pub fn new(
        name: String,
        log: String,
        scope: String,
        weight: u64,
        params: RuleParams,
        kind: RuleKind,
    ) -> (res: TidyRule)
        ensures
            res.spec_name() == name@,
            res.spec_log() == log@,
            res.spec_scope() == scope@,
            res.spec_weight() == weight,
            res.spec_params() == params,
            res.spec_kind() == kind,
    {
        TidyRule { name, log, scope, weight, params, kind }
    }

    /// The rule's name.
    pub fn rule_name(&self) -> (res: String)
        ensures
            res@ == self.spec_name(),
    {
        self.name.clone()
    }

    /// The rule's weight.
    pub fn rule_weight(&self) -> (res: u64)
        ensures
            res == self.spec_weight(),
    {
        self.weight
    }

    /// The rule's scope: a directory, or `all`.
    pub fn rule_scope(&self) -> (res: String)
        ensures
            res@ == self.spec_scope(),
    {
        self.scope.clone()
    }

    /// The rule's kind.
    pub fn rule_kind(&self) -> (res: RuleKind)
        ensures
            res == self.spec_kind(),
    {
        self.kind
    }

    /// Rules are equal when their names are (`TidyRule::eq`).
    pub fn eq(&self, other: &TidyRule) -> (res: bool)
        ensures
            res == (self.spec_name() == other.spec_name()),
    {
        let a = to_chars(self.name.as_str());
        let b = to_chars(other.name.as_str());
        chars_eq(&a, &b)
    }
}

/// A grade: 0 is the best.
#[derive(Clone, Copy, Debug, PartialEq, Eq, Structural)]
pub struct TidyGrade(pub u8);

/// The letter of a grade: `A` for 0 up to `F` for 5, and `F` beyond.
pub open spec fn grade_letter(g: u8) -> char {
    if g == 0 {
        'A'
    } else if g == 1 {
        'B'
    } else if g == 2 {
        'C'
    } else if g == 3 {
        'D'
    } else if g == 4 {
        'E'
    } else {
        'F'
    }
}

impl TidyGrade {
    /// The grade as a letter.
    pub fn display_grade(&self) -> (res: String)
        ensures
            res@ == seq![grade_letter(self.0)],
    {
        let c = if self.0 == 0 {
            'A'
        } else if self.0 == 1 {
            'B'
        } else if self.0 == 2 {
            'C'
        } else if self.0 == 3 {
            'D'
        } else if self.0 == 4 {
            'E'
        } else {
            'F'
        };
        let mut v: Vec<char> = Vec::new();
        v.push(c);
        assert(v@ =~= seq![grade_letter(self.0)]);
        from_chars(&v)
    }
}

/// Why a rule could not be loaded.
#[derive(Debug)]
pub enum RuleError {
    /// A key is missing from the rule's table (`ConfigError::NotFound`).
    NotFound(String),
    /// The rule's type is none of `duplicated`, `misnamed`, `perished`.
    UnknownType(String),
}

/// The message for a missing key.
pub open spec fn not_found_message(key: Seq<char>) -> Seq<char> {
    "Error while getting the key "@ + key
}

/// The message for an unknown rule type.
pub open spec fn unknown_type_message(rule_type: Seq<char>) -> Seq<char> {
    "Could not load rule with type "@ + rule_type
}

fn message(prefix: &str, tail: &Vec<char>) -> (res: String)
    ensures
        res@ == prefix@ + tail@,
{
    let p = to_chars(prefix);
    let all = concat_chars(&p, tail);
    from_chars(&all)
}

/// The rendering of the value of `key`, or a `NotFound` error naming the
/// key when the table does not hold it.
pub fn get_string_from_table_safe(table: &RuleParams, key: &str) -> (res: Result<String, RuleError>)
    ensures
        match table.spec_get(key@) {
            Some(v) => res matches Ok(s) && s@ == param_display(v),
            None => res matches Err(RuleError::NotFound(m)) && m@ == not_found_message(key@),
        },
{
    match table.get(key) {
        Some(value) => Ok(to_display_string(value)),
        None => {
            let k = to_chars(key);
            Err(RuleError::NotFound(message("Error while getting the key ", &k)))
        },
    }
}

/// The value of `key` as a `u64`, or a `NotFound` error naming the key when
/// the table does not hold it. A value that does not convert has no
/// weight, so it is ruled out.
pub fn get_u64_from_table_safe(table: &RuleParams, key: &str) -> (res: Result<u64, RuleError>)
    requires
        table.spec_get(key@) matches Some(v) ==> param_into_uint(v) is Some,
    ensures
        match table.spec_get(key@) {
            Some(v) => res matches Ok(n) && param_into_uint(v) == Some(n),
            None => res matches Err(RuleError::NotFound(m)) && m@ == not_found_message(key@),
        },
{
    match table.get(key) {
        Some(value) => match into_uint(value) {
            Some(n) => Ok(n),
            None => Ok(0),
        },
        None => {
            let k = to_chars(key);
            Err(RuleError::NotFound(message("Error while getting the key ", &k)))
        },
    }
}

pub open spec fn key_name() -> Seq<char> {
    "name"@
}

pub open spec fn key_log() -> Seq<char> {
    "log"@
}

pub open spec fn key_scope() -> Seq<char> {
    "scope"@
}

pub open spec fn key_weight() -> Seq<char> {
    "weight"@
}

pub open spec fn key_type() -> Seq<char> {
    "type"@
}

/// The kind named by a rule type.
pub open spec fn kind_of_type(t: Seq<char>) -> Option<RuleKind> {
    if t == "duplicated"@ {
        Some(RuleKind::Duplicated)
    } else if t == "misnamed"@ {
        Some(RuleKind::Misnamed)
    } else if t == "perished"@ {
        Some(RuleKind::Perished)
    } else {
        None
    }
}

/// Loading the table is defined: once name, log and scope are found, a
/// weight it holds converts to a `u64`.
pub open spec fn load_defined(table: RuleParams) -> bool {
    (table.spec_get(key_name()) is Some && table.spec_get(key_log()) is Some && table.spec_get(
        key_scope(),
    ) is Some && table.spec_get(key_weight()) matches Some(w)) ==> param_into_uint(
        table.spec_get(key_weight())->0,
    ) is Some
}

/// The table loads as a rule: it holds `name`, `log`, `scope`, `weight` and
/// a `type` that names a kind.
pub open spec fn table_loads(table: RuleParams) -> bool {
    &&& table.spec_get(key_name()) is Some
    &&& table.spec_get(key_log()) is Some
    &&& table.spec_get(key_scope()) is Some
    &&& table.spec_get(key_weight()) is Some
    &&& table.spec_get(key_type()) is Some
    &&& kind_of_type(param_display(table.spec_get(key_type())->0)) is Some
}

/// The error loading gives for a table that does not load: the first
/// missing key (in the order name, log, scope, weight, type), or else the
/// unknown type.
pub open spec fn load_error_is(table: RuleParams, e: RuleError) -> bool {
    if table.spec_get(key_name()) is None {
        e matches RuleError::NotFound(m) && m@ == not_found_message(key_name())
    } else if table.spec_get(key_log()) is None {
        e matches RuleError::NotFound(m) && m@ == not_found_message(key_log())
    } else if table.spec_get(key_scope()) is None {
        e matches RuleError::NotFound(m) && m@ == not_found_message(key_scope())
    } else if table.spec_get(key_weight()) is None {
        e matches RuleError::NotFound(m) && m@ == not_found_message(key_weight())
    } else if table.spec_get(key_type()) is None {
        e matches RuleError::NotFound(m) && m@ == not_found_message(key_type())
    } else {
        e matches RuleError::UnknownType(m) && m@ == unknown_type_message(
            param_display(table.spec_get(key_type())->0),
        )
    }
}

/// `rule` is the rule that `table` loads as: the renderings of its name,
/// log and scope, its weight as a `u64`, the kind its type names, and the
/// table itself as parameters.
pub open spec fn rule_of_table(rule: TidyRule, table: RuleParams) -> bool {
    &&& rule.spec_name() == param_display(table.spec_get(key_name())->0)
    &&& rule.spec_log() == param_display(table.spec_get(key_log())->0)
    &&& rule.spec_scope() == param_display(table.spec_get(key_scope())->0)
    &&& Some(rule.spec_weight()) == param_into_uint(table.spec_get(key_weight())->0)
    &&& Some(rule.spec_kind()) == kind_of_type(param_display(table.spec_get(key_type())->0))
    &&& rule.spec_params() == table
}

/// A list of duplicates is known and not empty.
pub open spec fn has_duplicates(duplicates: Option<nat>) -> bool {
    match duplicates {
        Some(n) => n > 0,
        None => false,
    }
}

/// The contribution of one rule to the grade of a file whose findings are
/// `misnamed`, `unused` and `duplicates` (the number of duplicates, when
/// there is a list): one for each finding that matches the rule's type when
/// the rule's weight is 1 (`1 / weight` in integers), nothing otherwise.
pub open spec fn rule_points(rule: TidyRule, misnamed: bool, unused: bool, duplicates: Option<nat>) -> nat {
    let t = param_display(rule.spec_params().spec_get(key_type())->0);
    let unit: nat = if rule.spec_weight() == 1 {
        1
    } else {
        0
    };
    (if t == "misnamed"@ && misnamed {
        unit
    } else {
        0
    }) + (if t == "duplicated"@ && has_duplicates(duplicates) {
        unit
    } else {
        0
    }) + (if t == "unused"@ && unused {
        unit
    } else {
        0
    })
}

/// The rule can be used to grade such a file: it has a type, and when one
/// of its findings counts, its weight is not zero (a finding is worth one
/// divided by the weight).
pub open spec fn rule_gradable(rule: TidyRule, misnamed: bool, unused: bool, duplicates: Option<nat>) -> bool {
    let t = param_display(rule.spec_params().spec_get(key_type())->0);
    &&& rule.spec_params().spec_get(key_type()) is Some
    &&& ((t == "misnamed"@ && misnamed) || (t == "duplicated"@ && has_duplicates(duplicates)) || (t
        == "unused"@ && unused)) ==> rule.spec_weight() != 0
}

/// The sum of the points of `rules`.
pub open spec fn grade_sum(rules: Seq<TidyRule>, misnamed: bool, unused: bool, duplicates: Option<nat>) -> nat
    decreases rules.len(),
{
    if rules.len() == 0 {
        0
    } else {
        grade_sum(rules.drop_last(), misnamed, unused, duplicates) + rule_points(
            rules.last(),
            misnamed,
            unused,
            duplicates,
        )
    }
}

/// The number of duplicates a score lists, if it has a list.
pub open spec fn duplicates_count(score: TidyScoreModel) -> Option<nat> {
    match score.duplicated {
        Some(d) => Some(d.len()),
        None => None,
    }
}

/// A path as `Path::starts_with` sees it: `base` is a whole-component
/// prefix of `path`.
pub uninterp spec fn path_starts_with(path: Seq<char>, base: Seq<char>) -> bool;

/// `Path::starts_with`. The contract claims only that the answer is the one
/// named [`path_starts_with`], a function of both paths alone.
#[verifier::external_body]
fn path_starts_with_exec(path: &str, base: &str) -> (res: bool)
    ensures
        res == path_starts_with(path@, base@),
{
    std::path::Path::new(path).starts_with(base)
}

/// The rule applies to a file at `path`: its scope, canonicalized, is a
/// prefix of the path, or its scope is `all`.
pub open spec fn rule_applies_spec(rule: TidyRule, path: Seq<char>, canonical_scope: Seq<char>) -> bool {
    path_starts_with(path, canonical_scope) || rule.spec_scope() == "all"@
}

/// The rule is defined for the file: its own definedness condition holds.
pub open spec fn rule_defined(rule: TidyRule, file: FileInfoModel, now: Timestamp) -> bool {
    match rule.spec_kind() {
        RuleKind::Duplicated => true,
        RuleKind::Misnamed => misnamed_defined(file, rule.spec_params()),
        RuleKind::Perished => apply_perished_defined(file, rule.spec_params(), now),
    }
}

/// The score a rule gives a file.
pub open spec fn rule_score(rule: TidyRule, file: FileInfoModel, now: Timestamp, recorded: Option<Seq<FileInfoModel>>) -> TidyScoreModel {
    match rule.spec_kind() {
        RuleKind::Duplicated => aply_duplicated_spec(file, recorded),
        RuleKind::Misnamed => misnamed_spec(file, rule.spec_params()),
        RuleKind::Perished => apply_perished_spec(file, rule.spec_params(), now),
    }
}

/// The rules of an algorithm, in the order they were loaded.
pub struct TidyAlgo {
    rules: Vec<TidyRule>,
}

impl TidyAlgo {
    /// The rules, in order.
    pub closed spec fn spec_rules(&self) -> Seq<TidyRule> {
        self.rules@
    }

    /// An algorithm without rules.
    pub fn new() -> (res: TidyAlgo)
        ensures
            res.spec_rules().len() == 0,
    {
        TidyAlgo { rules: Vec::new() }
    }

    /// Adds a rule after the others.
    pub fn add_rule(&mut self, rule: TidyRule)
        ensures
            final(self).spec_rules() == old(self).spec_rules().push(rule),
    {
        self.rules.push(rule);
    }

    /// The rules, in order.
    pub fn get_rules(&self) -> (res: &Vec<TidyRule>)
        ensures
            res@ == self.spec_rules(),
    {
        &self.rules
    }

    /// Loads the rule that `table` describes and returns its name; a table
    /// that misses a key or names an unknown type is an error, and no rule
    /// is added.
    pub fn load_rule_from_hashmap(&mut self, table: RuleParams) -> (res: Result<String, RuleError>)
        requires
            load_defined(table),
        ensures
            table_loads(table) ==> (res matches Ok(name) && name@ == param_display(
                table.spec_get(key_name())->0,
            )),
            table_loads(table) ==> final(self).spec_rules().len() == old(self).spec_rules().len() + 1
                && final(self).spec_rules().drop_last() == old(self).spec_rules()
                && rule_of_table(final(self).spec_rules().last(), table),
            !table_loads(table) ==> (res matches Err(e) && load_error_is(table, e)),
            !table_loads(table) ==> final(self).spec_rules() == old(self).spec_rules(),
    {
        let name = match get_string_from_table_safe(&table, "name") {
            Ok(s) => s,
            Err(e) => return Err(e),
        };
        let log = match get_string_from_table_safe(&table, "log") {
            Ok(s) => s,
            Err(e) => return Err(e),
        };
        let scope = match get_string_from_table_safe(&table, "scope") {
            Ok(s) => s,
            Err(e) => return Err(e),
        };
        let weight: u64 = match get_u64_from_table_safe(&table, "weight") {
            Ok(n) => n,
            Err(e) => return Err(e),
        };
        let apply_type = match get_string_from_table_safe(&table, "type") {
            Ok(s) => s,
            Err(e) => return Err(e),
        };
        let t = to_chars(apply_type.as_str());
        let kind = if chars_eq(&t, &to_chars("duplicated")) {
            RuleKind::Duplicated
        } else if chars_eq(&t, &to_chars("misnamed")) {
            RuleKind::Misnamed
        } else if chars_eq(&t, &to_chars("perished")) {
            RuleKind::Perished
        } else {
            return Err(RuleError::UnknownType(message("Could not load rule with type ", &t)));
        };
        let result = name.clone();
        let ghost old_rules = self.rules@;
        self.add_rule(TidyRule::new(name, log, scope, weight, table, kind));
        assert(self.rules@.drop_last() =~= old_rules);
        Ok(result)
    }

    /// Loads the rule of each table in turn, skipping those that do not
    /// load, and returns the number of rules this call loaded.
    pub fn load_rules_from_tables(&mut self, tables: Vec<RuleParams>) -> (res: usize)
        requires
            forall|k: int| 0 <= k < tables@.len() ==> load_defined(#[trigger] tables@[k]),
        ensures
            res == tables@.filter(|t: RuleParams| table_loads(t)).len(),
            final(self).spec_rules().len() == old(self).spec_rules().len() + tables@.filter(
                |t: RuleParams| table_loads(t),
            ).len(),
            final(self).spec_rules().subrange(0, old(self).spec_rules().len() as int) == old(self).spec_rules(),
            forall|k: int|
                0 <= k < tables@.filter(|t: RuleParams| table_loads(t)).len() ==> rule_of_table(
                    #[trigger] final(self).spec_rules()[old(self).spec_rules().len() + k],
                    tables@.filter(|t: RuleParams| table_loads(t))[k],
                ),
    {
        let ghost pred = |t: RuleParams| table_loads(t);
        let ghost old_rules = self.rules@;
        let old_len = self.rules.len();
        let mut tables = tables;
        let ghost all = tables@;
        let mut rest: Vec<RuleParams> = Vec::new();
        // Take the tables from the back, so that they come out in order.
        while tables.len() > 0
            invariant
                all == tables@ + rest@.reverse(),
                self.rules@ == old_rules,
            decreases tables.len(),
        {
            let t = tables.pop().unwrap();
            rest.push(t);
            assert(all =~= tables@ + rest@.reverse()) by {
                assert(rest@.reverse() =~= seq![t] + rest@.drop_last().reverse());
            }
        }
        assert(rest@.reverse() =~= all);
        let ghost mut done: Seq<RuleParams> = Seq::empty();
        while rest.len() > 0
            invariant
                all == done + rest@.reverse(),
                forall|k: int| 0 <= k < all.len() ==> load_defined(#[trigger] all[k]),
                pred == (|t: RuleParams| table_loads(t)),
                self.rules@.len() == old_rules.len() + done.filter(pred).len(),
                self.rules@.subrange(0, old_rules.len() as int) == old_rules,
                forall|k: int|
                    0 <= k < done.filter(pred).len() ==> rule_of_table(
                        #[trigger] self.rules@[old_rules.len() + k],
                        done.filter(pred)[k],
                    ),
            decreases rest.len(),
        {
            let ghost before = self.rules@;
            let ghost rest_before = rest@;
            let t = rest.pop().unwrap();
            proof {
                assert(all =~= done.push(t) + rest@.reverse()) by {
                    assert(rest_before.reverse() =~= seq![t] + rest@.reverse());
                }
                assert(all[done.len() as int] == t);
                done.lemma_filter_push(t, pred);
            }
            let ghost tt = t;
            let _ = self.load_rule_from_hashmap(t);
            proof {
                if table_loads(tt) {
                    assert(self.rules@.subrange(0, old_rules.len() as int) =~= old_rules) by {
                        assert(self.rules@.drop_last() == before);
                        assert(before.subrange(0, old_rules.len() as int) == old_rules);
                    }
                    assert forall|k: int|
                        0 <= k < done.push(tt).filter(pred).len() implies rule_of_table(
                        #[trigger] self.rules@[old_rules.len() + k],
                        done.push(tt).filter(pred)[k],
                    ) by {
                        if k < done.filter(pred).len() {
                            assert(self.rules@[old_rules.len() + k] == before[old_rules.len() + k]);
                        }
                    }
                }
                done = done.push(tt);
            }
        }
        assert(done =~= all);
        self.rules.len() - old_len
    }

    /// The rules can grade a score: see [`rule_gradable`].
    pub open spec fn gradable(&self, score: TidyScoreModel) -> bool {
        forall|k: int|
            0 <= k < self.spec_rules().len() ==> rule_gradable(
                #[trigger] self.spec_rules()[k],
                score.misnamed,
                score.unused,
                duplicates_count(score),
            )
    }

    /// The grade of a score: the points of all rules (see [`rule_points`]),
    /// at most 255.
    pub fn compute_grade(&self, tidy_score: &TidyScore) -> (res: TidyGrade)
        requires
            self.gradable(score_model(*tidy_score)),
        ensures
            res.0 as nat == if grade_sum(
                self.spec_rules(),
                tidy_score.misnamed,
                tidy_score.unused,
                duplicates_count(score_model(*tidy_score)),
            ) > 255 {
                255
            } else {
                grade_sum(
                    self.spec_rules(),
                    tidy_score.misnamed,
                    tidy_score.unused,
                    duplicates_count(score_model(*tidy_score)),
                )
            },
    {
        let ghost dup = duplicates_count(score_model(*tidy_score));
        let dup_len: Option<usize> = match &tidy_score.duplicated {
            Some(d) => {
                proof {
                    crate::file_info::lemma_files_model(d@);
                }
                Some(d.len())
            },
            None => None,
        };
        let mut grade: u64 = 0;
        let mut i: usize = 0;
        while i < self.rules.len()
            invariant
                i <= self.rules@.len(),
                self.gradable(score_model(*tidy_score)),
                dup == duplicates_count(score_model(*tidy_score)),
                match dup_len {
                    Some(n) => dup == Some(n as nat),
                    None => dup is None,
                },
                grade == if grade_sum(
                    self.rules@.subrange(0, i as int),
                    tidy_score.misnamed,
                    tidy_score.unused,
                    dup,
                ) > 255 {
                    255
                } else {
                    grade_sum(
                        self.rules@.subrange(0, i as int),
                        tidy_score.misnamed,
                        tidy_score.unused,
                        dup,
                    )
                },
            decreases self.rules.len() - i,
        {
            let rule = &self.rules[i];
            assert(self.rules@.subrange(0, i + 1).drop_last() =~= self.rules@.subrange(0, i as int));
            assert(rule_gradable(self.spec_rules()[i as int], tidy_score.misnamed, tidy_score.unused, dup));
            let type_value = match rule.params.get("type") {
                Some(v) => v,
                None => {
                    return TidyGrade(0);
                },
            };
            let rule_type = to_chars(to_display_string(type_value).as_str());
            let unit: u64 = if rule.weight == 1 {
                1
            } else {
                0
            };
            let mut points: u64 = 0;
            if chars_eq(&rule_type, &to_chars("misnamed")) && tidy_score.misnamed {
                points = points + unit;
            }
            match dup_len {
                Some(n) => {
                    if chars_eq(&rule_type, &to_chars("duplicated")) && n > 0 {
                        points = points + unit;
                    }
                },
                None => {},
            }
            if chars_eq(&rule_type, &to_chars("unused")) && tidy_score.unused {
                points = points + unit;
            }
            grade = if grade + points > 255 {
                255
            } else {
                grade + points
            };
            i = i + 1;
        }
        assert(self.rules@.subrange(0, self.rules@.len() as int) =~= self.rules@);
        TidyGrade(grade as u8)
    }

    /// Whether the rules can grade the score ([`TidyAlgo::gradable`]).
    pub fn gradable_exec(&self, tidy_score: &TidyScore) -> (res: bool)
        ensures
            res == self.gradable(score_model(*tidy_score)),
    {
        let ghost dup = duplicates_count(score_model(*tidy_score));
        let has_dup: bool = match &tidy_score.duplicated {
            Some(d) => {
                proof {
                    crate::file_info::lemma_files_model(d@);
                }
                d.len() > 0
            },
            None => false,
        };
        assert(has_dup == has_duplicates(dup));
        let mut i: usize = 0;
        while i < self.rules.len()
            invariant
                i <= self.rules@.len(),
                dup == duplicates_count(score_model(*tidy_score)),
                has_dup == has_duplicates(dup),
                forall|k: int|
                    0 <= k < i ==> rule_gradable(
                        #[trigger] self.spec_rules()[k],
                        tidy_score.misnamed,
                        tidy_score.unused,
                        dup,
                    ),
            decreases self.rules.len() - i,
        {
            let rule = &self.rules[i];
            let type_value = match rule.params.get("type") {
                Some(v) => v,
                None => {
                    assert(!rule_gradable(self.spec_rules()[i as int], tidy_score.misnamed, tidy_score.unused, dup));
                    return false;
                },
            };
            let t = to_chars(to_display_string(type_value).as_str());
            let counts = (chars_eq(&t, &to_chars("misnamed")) && tidy_score.misnamed) || (chars_eq(
                &t,
                &to_chars("duplicated"),
            ) && has_dup) || (chars_eq(&t, &to_chars("unused")) && tidy_score.unused);
            if counts && rule.weight == 0 {
                assert(!rule_gradable(self.spec_rules()[i as int], tidy_score.misnamed, tidy_score.unused, dup));
                return false;
            }
            i = i + 1;
        }
        true
    }

    /// Whether rule `i` applies to a file at `path`, given the rule's scope
    /// canonicalized by the caller.
    pub fn rule_applies(&self, i: usize, path: &str, canonical_scope: &str) -> (res: bool)
        requires
            i < self.spec_rules().len(),
        ensures
            res == rule_applies_spec(self.spec_rules()[i as int], path@, canonical_scope@),
    {
        let rule = &self.rules[i];
        if path_starts_with_exec(path, canonical_scope) {
            return true;
        }
        let scope = to_chars(rule.scope.as_str());
        chars_eq(&scope, &to_chars("all"))
    }

    /// Applies rule `i` to `file`: the file's score becomes the one the rule
    /// gives, at the instant `now` and, for a duplicated rule, with the
    /// duplicates the caller recorded (`None` when reading the database
    /// failed). Returns `false`, with the file unchanged, exactly where the
    /// rule is not defined for these inputs ([`rule_defined`]).
    pub fn apply_rule(
        &self,
        i: usize,
        file: &mut FileInfo,
        now: Timestamp,
        recorded: Option<Vec<FileInfo>>,
    ) -> (res: bool)
        requires
            i < self.spec_rules().len(),
        ensures
            res == rule_defined(self.spec_rules()[i as int], file_model(*old(file)), now),
            res ==> file_model(*final(file)) == (FileInfoModel {
                tidy_score: Some(
                    rule_score(
                        self.spec_rules()[i as int],
                        file_model(*old(file)),
                        now,
                        match recorded {
                            Some(v) => Some(crate::file_info::files_model(v@)),
                            None => None,
                        },
                    ),
                ),
                ..file_model(*old(file))
            }),
            !res ==> file_model(*final(file)) == file_model(*old(file)),
    {
        let rule = &self.rules[i];
        match rule.kind {
            RuleKind::Duplicated => {
                let score = aply_duplicated(file, recorded);
                file.tidy_score = Some(score);
                true
            },
            RuleKind::Misnamed => match misnamed_checked(file, &rule.params) {
                Some(score) => {
                    file.tidy_score = Some(score);
                    true
                },
                None => false,
            },
            RuleKind::Perished => {
                if apply_perished_is_defined(file, &rule.params, now) {
                    let score = apply_perished(file, &rule.params, now);
                    file.tidy_score = Some(score);
                    true
                } else {
                    false
                }
            },
        }
    }
}

/// A file with no finding gets the best grade: every rule gives it no
/// point.
pub proof fn lemma_clean_score_grades_zero(rules: Seq<TidyRule>, duplicates: Option<nat>)
    requires
        !has_duplicates(duplicates),
    ensures
        grade_sum(rules, false, false, duplicates) == 0,
    decreases rules.len(),
{
    if rules.len() > 0 {
        lemma_clean_score_grades_zero(rules.drop_last(), duplicates);
    }
}

/// More findings never give a better grade: when every finding of the
/// first score is also a finding of the second, the first's points are at
/// most the second's.
pub proof fn lemma_grade_monotone(
    rules: Seq<TidyRule>,
    misnamed1: bool,
    unused1: bool,
    duplicates1: Option<nat>,
    misnamed2: bool,
    unused2: bool,
    duplicates2: Option<nat>,
)
    requires
        misnamed1 ==> misnamed2,
        unused1 ==> unused2,
        has_duplicates(duplicates1) ==> has_duplicates(duplicates2),
    ensures
        grade_sum(rules, misnamed1, unused1, duplicates1) <= grade_sum(
            rules,
            misnamed2,
            unused2,
            duplicates2,
        ),
    decreases rules.len(),
{
    if rules.len() > 0 {
        lemma_grade_monotone(
            rules.drop_last(),
            misnamed1,
            unused1,
            duplicates1,
            misnamed2,
            unused2,
            duplicates2,
        );
    }
}

/// The type a rule grades by: the rendering of its `type` parameter.
pub open spec fn rule_type(rule: TidyRule) -> Seq<char> {
    param_display(rule.spec_params().spec_get(key_type())->0)
}

/// A rule scores only its own finding: a `misnamed` rule gives a point
/// exactly when the file is misnamed, a `duplicated` rule exactly when it
/// has duplicates, an `unused` rule exactly when it is unused (each only
/// with weight 1), and a rule of any other type gives nothing.
pub proof fn lemma_rule_scores_its_own_finding(rule: TidyRule, misnamed: bool, unused: bool, duplicates: Option<nat>)
    ensures
        rule_type(rule) == "misnamed"@ ==> rule_points(rule, misnamed, unused, duplicates) == (if misnamed
            && rule.spec_weight() == 1 {
            1nat
        } else {
            0nat
        }),
        rule_type(rule) == "duplicated"@ ==> rule_points(rule, misnamed, unused, duplicates) == (if has_duplicates(
            duplicates,
        ) && rule.spec_weight() == 1 {
            1nat
        } else {
            0nat
        }),
        rule_type(rule) == "unused"@ ==> rule_points(rule, misnamed, unused, duplicates) == (if unused
            && rule.spec_weight() == 1 {
            1nat
        } else {
            0nat
        }),
        rule_type(rule) != "misnamed"@ && rule_type(rule) != "duplicated"@ && rule_type(rule)
            != "unused"@ ==> rule_points(rule, misnamed, unused, duplicates) == 0,
{
    reveal_strlit("misnamed");
    reveal_strlit("duplicated");
    reveal_strlit("unused");
    assert("misnamed"@.len() == 8 && "duplicated"@.len() == 10 && "unused"@.len() == 6);
}

/// The grade of a file depends on a finding only through the rules of that
/// finding's type: without an `unused` rule, whether the file is unused
/// does not change its grade; without a `misnamed` rule, whether it is
/// misnamed does not; without a `duplicated` rule, its duplicates do not.
pub proof fn lemma_grade_depends_only_on_matching_rules(
    rules: Seq<TidyRule>,
    misnamed: bool,
    unused: bool,
    duplicates: Option<nat>,
)
    ensures
        (forall|k: int| 0 <= k < rules.len() ==> rule_type(#[trigger] rules[k]) != "unused"@)
            ==> grade_sum(rules, misnamed, unused, duplicates) == grade_sum(
            rules,
            misnamed,
            false,
            duplicates,
        ),
        (forall|k: int| 0 <= k < rules.len() ==> rule_type(#[trigger] rules[k]) != "misnamed"@)
            ==> grade_sum(rules, misnamed, unused, duplicates) == grade_sum(
            rules,
            false,
            unused,
            duplicates,
        ),
        (forall|k: int| 0 <= k < rules.len() ==> rule_type(#[trigger] rules[k]) != "duplicated"@)
            ==> grade_sum(rules, misnamed, unused, duplicates) == grade_sum(
            rules,
            misnamed,
            unused,
            None,
        ),
    decreases rules.len(),
{
    if rules.len() > 0 {
        let init = rules.drop_last();
        lemma_grade_depends_only_on_matching_rules(init, misnamed, unused, duplicates);
        let last = rules.last();
        lemma_rule_scores_its_own_finding(last, misnamed, unused, duplicates);
        lemma_rule_scores_its_own_finding(last, misnamed, false, duplicates);
        lemma_rule_scores_its_own_finding(last, false, unused, duplicates);
        lemma_rule_scores_its_own_finding(last, misnamed, unused, None);
        assert forall|k: int| 0 <= k < init.len() implies #[trigger] init[k] == rules[k] by {}
        if forall|k: int| 0 <= k < rules.len() ==> rule_type(#[trigger] rules[k]) != "unused"@ {
            assert(rule_type(rules[rules.len() - 1]) != "unused"@);
            assert forall|k: int| 0 <= k < init.len() implies rule_type(#[trigger] init[k]) != "unused"@ by {
                assert(init[k] == rules[k]);
            }
        }
        if forall|k: int| 0 <= k < rules.len() ==> rule_type(#[trigger] rules[k]) != "misnamed"@ {
            assert(rule_type(rules[rules.len() - 1]) != "misnamed"@);
            assert forall|k: int| 0 <= k < init.len() implies rule_type(#[trigger] init[k]) != "misnamed"@ by {
                assert(init[k] == rules[k]);
            }
        }
        if forall|k: int| 0 <= k < rules.len() ==> rule_type(#[trigger] rules[k]) != "duplicated"@ {
            assert(rule_type(rules[rules.len() - 1]) != "duplicated"@);
            assert forall|k: int| 0 <= k < init.len() implies rule_type(#[trigger] init[k]) != "duplicated"@ by {
                assert(init[k] == rules[k]);
            }
        }
    }
}

/// A grade counts at most one point per rule.
pub proof fn lemma_grade_at_most_one_point_per_rule(
    rules: Seq<TidyRule>,
    misnamed: bool,
    unused: bool,
    duplicates: Option<nat>,
)
    ensures
        grade_sum(rules, misnamed, unused, duplicates) <= rules.len(),
    decreases rules.len(),
{
    if rules.len() > 0 {
        lemma_grade_at_most_one_point_per_rule(rules.drop_last(), misnamed, unused, duplicates);
        lemma_rule_scores_its_own_finding(rules.last(), misnamed, unused, duplicates);
        reveal_strlit("misnamed");
        reveal_strlit("duplicated");
        reveal_strlit("unused");
    }
}

} // verus!
