use tidybee_agent::file_info::{FileInfo, TidyScore, Timestamp};
use tidybee_agent::rule_params::{ParamValue, RuleParams};
use tidybee_agent::tidy_algo::tidy_rules::misnamed::{misnamed, misnamed_checked};
use tidybee_agent::tidy_algo::{
    get_string_from_table_safe, get_u64_from_table_safe, RuleError, RuleKind, TidyAlgo, TidyGrade,
    TidyRule,
};
use tidybee_agent::tidy_rules::duplicated::{aply_duplicated, duplicate_candidates};

fn table(entries: &[(&str, ParamValue)]) -> RuleParams {
    let mut p = RuleParams::new();
    for (k, v) in entries {
        p.entries.push((k.to_string(), v.clone()));
    }
    p
}

fn s(v: &str) -> ParamValue {
    ParamValue::Str(v.to_string())
}

fn rule_table(name: &str, rule_type: &str, weight: u64) -> RuleParams {
    table(&[
        ("name", s(name)),
        ("log", s("log")),
        ("scope", s("all")),
        ("weight", ParamValue::U64(weight)),
        ("type", s(rule_type)),
    ])
}

#[test]
fn create_tidy_algo() {
    let tidy_algo = TidyAlgo::new();
    assert_eq!(tidy_algo.get_rules().len(), 0);
}

#[test]
fn add_rule() {
    let mut tidy_algo = TidyAlgo::new();

    let new_rule = TidyRule::new(
        "dummy rule".to_string(),
        "dummy log".to_string(),
        "dummy scope".to_string(),
        1,
        RuleParams::new(),
        RuleKind::Misnamed,
    );
    tidy_algo.add_rule(new_rule);

    assert_eq!(tidy_algo.get_rules().len(), 1);
}

#[test]
fn loading_a_table_adds_its_rule() {
    let mut algo = TidyAlgo::new();
    let name = algo.load_rule_from_hashmap(rule_table("old files", "perished", 2));
    assert_eq!(name.ok(), Some("old files".to_string()));
    let rule = &algo.get_rules()[0];
    assert_eq!(rule.rule_name(), "old files");
    assert_eq!(rule.rule_weight(), 2);
    assert_eq!(rule.rule_scope(), "all");
    assert_eq!(rule.rule_kind(), RuleKind::Perished);
}

#[test]
fn loading_reports_the_first_missing_key() {
    let mut algo = TidyAlgo::new();
    let t = table(&[("name", s("n")), ("scope", s("all"))]);
    match algo.load_rule_from_hashmap(t) {
        Err(RuleError::NotFound(m)) => assert_eq!(m, "Error while getting the key log"),
        _ => panic!("expected a missing key"),
    }
    assert_eq!(algo.get_rules().len(), 0);
}

#[test]
fn loading_reports_an_unknown_type() {
    let mut algo = TidyAlgo::new();
    match algo.load_rule_from_hashmap(rule_table("n", "shiny", 1)) {
        Err(RuleError::UnknownType(m)) => assert_eq!(m, "Could not load rule with type shiny"),
        _ => panic!("expected an unknown type"),
    }
    assert_eq!(algo.get_rules().len(), 0);
}

#[test]
fn loading_many_tables_skips_bad_ones() {
    let mut algo = TidyAlgo::new();
    let n = algo.load_rules_from_tables(vec![
        rule_table("a", "misnamed", 1),
        rule_table("b", "nothing", 1),
        rule_table("c", "duplicated", 1),
        table(&[("name", s("d"))]),
        rule_table("e", "perished", 1),
    ]);
    assert_eq!(n, 3);
    let names: Vec<String> = algo.get_rules().iter().map(|r| r.rule_name()).collect();
    assert_eq!(names, vec!["a", "c", "e"]);
}

#[test]
fn table_values_render_and_convert() {
    let t = table(&[("w", ParamValue::I64(-3)), ("u", ParamValue::U64(42)), ("b", ParamValue::Boolean(true))]);
    assert_eq!(get_string_from_table_safe(&t, "w").ok(), Some("-3".to_string()));
    assert_eq!(get_string_from_table_safe(&t, "b").ok(), Some("true".to_string()));
    assert_eq!(get_u64_from_table_safe(&t, "u").ok(), Some(42));
    assert!(matches!(get_u64_from_table_safe(&t, "zz"), Err(RuleError::NotFound(_))));
}

#[test]
fn grades_display_as_letters() {
    let letters: Vec<String> = (0u8..8).map(|g| TidyGrade(g).display_grade()).collect();
    assert_eq!(letters, vec!["A", "B", "C", "D", "E", "F", "F", "F"]);
}

#[test]
fn clean_files_grade_zero_and_findings_add_up() {
    let mut algo = TidyAlgo::new();
    algo.load_rules_from_tables(vec![
        rule_table("m", "misnamed", 1),
        rule_table("d", "duplicated", 1),
        rule_table("heavy", "misnamed", 3),
    ]);
    // No table loads with type "unused", but a rule built by hand can have it.
    algo.add_rule(TidyRule::new(
        "u".to_string(),
        "log".to_string(),
        "all".to_string(),
        1,
        table(&[("type", s("unused"))]),
        RuleKind::Perished,
    ));
    assert_eq!(algo.compute_grade(&TidyScore::new(false, false, None)).0, 0);
    assert_eq!(algo.compute_grade(&TidyScore::new(true, false, None)).0, 1);
    assert_eq!(algo.compute_grade(&TidyScore::new(true, true, Some(vec![]))).0, 2);
    let dup = Some(vec![FileInfo::default()]);
    assert_eq!(algo.compute_grade(&TidyScore::new(true, true, dup)).0, 3);
}

#[test]
fn rule_scope_all_applies_everywhere() {
    let mut algo = TidyAlgo::new();
    algo.load_rules_from_tables(vec![rule_table("m", "misnamed", 1)]);
    assert!(algo.rule_applies(0, "/x/y", "/nowhere"));
    let mut scoped = TidyAlgo::new();
    let mut t = rule_table("m", "misnamed", 1);
    t.entries[2] = ("scope".to_string(), s("/home"));
    scoped.load_rules_from_tables(vec![t]);
    assert!(scoped.rule_applies(0, "/home/me/f", "/home"));
    assert!(!scoped.rule_applies(0, "/homely/f", "/home"));
}

fn file(path: &str, hash: &str) -> FileInfo {
    let mut f = FileInfo::default();
    f.path = path.to_string();
    f.pretty_path = path.to_string();
    f.hash = Some(hash.to_string());
    f
}

#[test]
fn misnamed_rule_checks_the_pattern() {
    let params = table(&[("pattern", s("^[a-z/]+$"))]);
    assert!(!misnamed(&file("/good/name", "1"), &params).misnamed);
    assert!(misnamed(&file("/Bad Name", "1"), &params).misnamed);
    let broken = table(&[("pattern", s("(unclosed"))]);
    assert!(misnamed_checked(&file("/a", "1"), &broken).is_none());
    assert!(!misnamed(&file("/Bad Name", "1"), &RuleParams::new()).misnamed);
}

#[test]
fn duplicates_are_other_paths_with_the_same_hash() {
    let me = file("/a", "h");
    let all = vec![file("/a", "h"), file("/b", "h"), file("/c", "other"), file("/d", "h")];
    let dups = duplicate_candidates(&me, &all);
    let paths: Vec<&str> = dups.iter().map(|f| f.path.as_str()).collect();
    assert_eq!(paths, vec!["/b", "/d"]);
    let score = aply_duplicated(&me, Some(dups));
    assert_eq!(score.duplicated.map(|d| d.len()), Some(2));
    assert!(aply_duplicated(&me, None).duplicated.is_none());
}

#[test]
fn applying_rules_updates_the_score() {
    let mut algo = TidyAlgo::new();
    let mut m = rule_table("m", "misnamed", 1);
    m.entries.push(("pattern".to_string(), s("^/ok")));
    let mut p = rule_table("p", "perished", 1);
    p.entries.push(("expiration_duration".to_string(), s("1 days")));
    algo.load_rules_from_tables(vec![m, p, rule_table("d", "duplicated", 1)]);
    let now = Timestamp { secs: 1_000, nanos: 0 };
    let mut f = file("/bad", "h");
    assert!(algo.apply_rule(0, &mut f, now, None));
    assert!(f.tidy_score.as_ref().unwrap().misnamed);
    assert!(algo.apply_rule(1, &mut f, now, None));
    let score = f.tidy_score.as_ref().unwrap();
    assert!(score.misnamed && score.unused);
    assert!(algo.apply_rule(2, &mut f, now, Some(vec![file("/other", "h")])));
    assert_eq!(f.tidy_score.as_ref().unwrap().duplicated.as_ref().map(|d| d.len()), Some(1));
}

#[test]
fn applying_an_undefined_rule_leaves_the_file() {
    let mut algo = TidyAlgo::new();
    let mut m = rule_table("m", "misnamed", 1);
    m.entries.push(("pattern".to_string(), s("[")));
    algo.load_rules_from_tables(vec![m]);
    let mut f = file("/x", "h");
    assert!(!algo.apply_rule(0, &mut f, Timestamp { secs: 0, nanos: 0 }, None));
    assert!(f.tidy_score.is_none());
}

#[test]
fn loading_counts_only_the_rules_of_this_call() {
    let mut algo = TidyAlgo::new();
    assert_eq!(algo.load_rules_from_tables(vec![rule_table("a", "misnamed", 1), rule_table("b", "perished", 1)]), 2);
    assert_eq!(algo.load_rules_from_tables(vec![rule_table("c", "duplicated", 1), rule_table("d", "bad", 1)]), 1);
    assert_eq!(algo.get_rules().len(), 3);
}

#[test]
fn duplicates_compare_paths_by_component() {
    let me = file("/a/b", "h");
    let all = vec![file("/a//b", "h"), file("/a/./b", "h"), file("/a/c", "h")];
    let dups = duplicate_candidates(&me, &all);
    let paths: Vec<&str> = dups.iter().map(|f| f.path.as_str()).collect();
    assert_eq!(paths, vec!["/a/c"]);
}
