use tidybee_agent::file_info::{FileInfo, TidyScore, Timestamp};
use tidybee_agent::rule_params::{ParamValue, RuleParams};
use tidybee_agent::tidy_rules::perished::{
    apply_perished, apply_perished_is_defined, calculate_expiration_date, duration_str_overflows,
    parse_duration, DurationError,
};

#[test]
fn one_day_duration() {
    assert!(parse_duration("+1 days").is_ok());
}

#[test]
fn one_day_duration_invalid() {
    assert!(parse_duration("+1 day").is_err());
}

#[test]
fn one_week_duration() {
    assert!(parse_duration("+1 weeks").is_ok());
}

#[test]
fn one_month_duration() {
    assert!(parse_duration("+1 months").is_ok());
}

#[test]
fn one_year_duration() {
    assert!(parse_duration("+1 years").is_ok());
}

#[test]
fn invalid_unit() {
    assert!(parse_duration("+1 invalid").is_err());
}

#[test]
fn missing_unit() {
    assert!(parse_duration("+1").is_err());
}

#[test]
fn missing_number() {
    assert!(parse_duration("days").is_err());
}

#[test]
fn missing_everything() {
    assert!(parse_duration("").is_err());
}

#[test]
fn durations_count_seconds_per_unit() {
    assert_eq!(parse_duration("1 days").unwrap().secs, 86400);
    assert_eq!(parse_duration("2 weeks").unwrap().secs, 2 * 604800);
    assert_eq!(parse_duration("1 months").unwrap().secs, 30 * 86400);
    assert_eq!(parse_duration("-1 years").unwrap().secs, -365 * 86400);
    assert_eq!(parse_duration("  3   days trailing words").unwrap().secs, 3 * 86400);
}

#[test]
fn duration_errors_are_told_apart() {
    assert_eq!(parse_duration("x days"), Err(DurationError::InvalidNumber));
    assert_eq!(parse_duration("1 fortnights"), Err(DurationError::UnsupportedUnit));
    assert_eq!(parse_duration("1"), Err(DurationError::NoDuration));
}

#[test]
fn huge_durations_overflow() {
    assert!(duration_str_overflows("1000000000000 days"));
    assert!(duration_str_overflows("1000000000 years"));
    assert!(!duration_str_overflows("10000000 years"));
    assert!(!duration_str_overflows("1 years"));
    assert!(!duration_str_overflows("nonsense"));
}

#[test]
fn expiration_is_now_plus_duration() {
    let now = Timestamp { secs: 1_000, nanos: 7 };
    let t = calculate_expiration_date("1 days", now).unwrap();
    assert_eq!(t, Timestamp { secs: 1_000 + 86400, nanos: 7 });
    assert_eq!(calculate_expiration_date("1 day", now), Err(DurationError::UnsupportedUnit));
}

fn params_with_duration(d: &str) -> RuleParams {
    let mut p = RuleParams::new();
    p.entries.push(("expiration_duration".to_string(), ParamValue::Str(d.to_string())));
    p
}

fn file_accessed_at(secs: i64) -> FileInfo {
    let mut f = FileInfo::default();
    f.last_accessed = Timestamp { secs, nanos: 0 };
    f
}

#[test]
fn perished_without_parameter_finds_nothing() {
    let f = file_accessed_at(0);
    let now = Timestamp { secs: 100, nanos: 0 };
    let s = apply_perished(&f, &RuleParams::new(), now);
    assert!(!s.misnamed && !s.unused && s.duplicated.is_none());
}

#[test]
fn perished_keeps_existing_score_and_sets_unused() {
    let mut f = file_accessed_at(0);
    f.tidy_score = Some(TidyScore::new(true, false, None));
    let now = Timestamp { secs: 100, nanos: 0 };
    let params = params_with_duration("1 days");
    assert!(apply_perished_is_defined(&f, &params, now));
    let s = apply_perished(&f, &params, now);
    assert!(s.misnamed);
    assert!(s.unused);
}

#[test]
fn perished_without_score_marks_files_not_before_expiration() {
    let now = Timestamp { secs: 100, nanos: 0 };
    let params = params_with_duration("-1 days");
    // Expiration lies in the past: a file accessed at 0 is not before it.
    let s = apply_perished(&file_accessed_at(0), &params, now);
    assert!(s.unused);
    let params = params_with_duration("1 days");
    let s = apply_perished(&file_accessed_at(0), &params, now);
    assert!(!s.unused);
}

#[test]
fn perished_is_undefined_out_of_datetime_range() {
    let f = file_accessed_at(0);
    let now = Timestamp { secs: 8_210_266_876_799, nanos: 0 };
    assert!(!apply_perished_is_defined(&f, &params_with_duration("1 days"), now));
    assert!(apply_perished_is_defined(&f, &params_with_duration("bad"), now));
}
