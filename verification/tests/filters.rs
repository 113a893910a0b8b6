use paclogrs::cli::Cli;
use paclogrs::date::{in_range, parse_date, Date, SetupError};
use paclogrs::glob::{matches_any, Pattern};

fn chars_of(s: &str) -> Vec<char> {
    s.chars().collect()
}

#[test]
fn empty_pattern_list_matches_every_name() {
    let pats: Vec<Pattern> = Vec::new();
    assert!(matches_any(&chars_of("anything"), &pats));
    assert!(matches_any(&chars_of(""), &pats));
}

#[test]
fn star_glob_examples() {
    let pats = vec![Pattern::compile("foo"), Pattern::compile("ba*")];
    assert!(matches_any(&chars_of("foo"), &pats));
    assert!(matches_any(&chars_of("bar"), &pats));
    assert!(matches_any(&chars_of("baz"), &pats));
    assert!(!matches_any(&chars_of("food"), &pats));
    assert!(!matches_any(&chars_of("xfoo"), &pats));
}

#[test]
fn glob_is_anchored_both_ends() {
    let p = Pattern::compile("vim");
    assert!(p.matches_str("vim"));
    assert!(!p.matches_str("vim-plugin"));
    assert!(!p.matches_str("neovim"));
    let star = Pattern::compile("*");
    assert!(star.matches_str(""));
    assert!(star.matches_str("anything"));
    let infix = Pattern::compile("a*c");
    assert!(infix.matches_str("ac"));
    assert!(infix.matches_str("abc"));
    assert!(infix.matches_str("abbbc"));
    assert!(!infix.matches_str("ab"));
}

#[test]
fn parse_date_accepts_valid_calendar_dates() {
    assert_eq!(parse_date("2024-01-15"), Ok(Date { year: 2024, month: 1, day: 15 }));
    assert_eq!(parse_date("2024-02-29"), Ok(Date { year: 2024, month: 2, day: 29 }));
    assert_eq!(parse_date("2000-02-29"), Ok(Date { year: 2000, month: 2, day: 29 }));
}

#[test]
fn parse_date_rejects_bad_strings() {
    assert_eq!(parse_date("2023-02-29"), Err(SetupError::InvalidDate));
    assert_eq!(parse_date("1900-02-29"), Err(SetupError::InvalidDate));
    assert_eq!(parse_date("2024-13-01"), Err(SetupError::InvalidDate));
    assert_eq!(parse_date("2024-04-31"), Err(SetupError::InvalidDate));
    assert_eq!(parse_date("2024-00-10"), Err(SetupError::InvalidDate));
    assert_eq!(parse_date("2024-1-15"), Err(SetupError::InvalidDate));
    assert_eq!(parse_date("24-01-15"), Err(SetupError::InvalidDate));
    assert_eq!(parse_date("2024/01/15"), Err(SetupError::InvalidDate));
    assert_eq!(parse_date(""), Err(SetupError::InvalidDate));
}

#[test]
fn date_filter_bounds_are_inclusive() {
    let d = Date { year: 2024, month: 1, day: 15 };
    let day14 = Date { year: 2024, month: 1, day: 14 };
    let day16 = Date { year: 2024, month: 1, day: 16 };
    assert!(in_range(d, Some(d), Some(d)));
    assert!(!in_range(d, Some(day14), None));
    assert!(!in_range(d, None, Some(day16)));
    assert!(in_range(d, Some(day16), Some(day14)));
    assert!(in_range(d, None, None));
}

#[test]
fn date_order_is_lexicographic() {
    let d = Date { year: 2024, month: 6, day: 15 };
    assert!(!in_range(d, Some(Date { year: 2023, month: 12, day: 31 }), None));
    assert!(in_range(d, Some(Date { year: 2025, month: 1, day: 1 }), None));
    assert!(!in_range(d, Some(Date { year: 2024, month: 5, day: 31 }), None));
    assert!(!in_range(d, None, Some(Date { year: 2024, month: 6, day: 16 })));
    assert!(in_range(d, None, Some(Date { year: 2024, month: 6, day: 15 })));
}

#[test]
fn cli_date_bounds_validate_fail_fast() {
    let ok = Cli {
        packages: Vec::new(),
        before: Some("2024-01-15".to_string()),
        after: None,
    };
    assert_eq!(
        ok.date_bounds(),
        Ok((Some(Date { year: 2024, month: 1, day: 15 }), None)),
    );
    let bad_before = Cli {
        packages: Vec::new(),
        before: Some("soon".to_string()),
        after: Some("2024-01-01".to_string()),
    };
    assert_eq!(bad_before.date_bounds(), Err(SetupError::InvalidDate));
    let bad_after = Cli {
        packages: Vec::new(),
        before: None,
        after: Some("2024-99-01".to_string()),
    };
    assert_eq!(bad_after.date_bounds(), Err(SetupError::InvalidDate));
}

#[test]
fn cli_compiles_each_glob() {
    let cli = Cli {
        packages: vec!["foo".to_string(), "ba*".to_string()],
        before: None,
        after: None,
    };
    let pats = cli.compile_patterns();
    assert_eq!(pats.len(), 2);
    assert!(pats[0].matches_str("foo"));
    assert!(pats[1].matches_str("bar"));
    assert!(!pats[0].matches_str("bar"));
}
