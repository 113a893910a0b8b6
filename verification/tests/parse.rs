use paclogrs::paclog::{PackageChange, PacmanAction, ParseError};
use paclogrs::glob::Pattern;
use paclogrs::timestamp::PacmanDateTime;

fn no_patterns() -> Vec<Pattern> {
    Vec::new()
}

#[test]
fn upgraded_line_with_offset_parses() {
    let line = "[2024-03-01T10:00:00+0000] [ALPM] upgraded vim (9.0.1 -> 9.0.2)".to_string();
    let e = PackageChange::from_line(line, &no_patterns()).unwrap();
    assert!(matches!(e.action, PacmanAction::Upgraded));
    assert_eq!(e.name, "vim");
    assert_eq!(e.previous_version.as_deref(), Some("9.0.1"));
    assert_eq!(e.current_version.as_deref(), Some("9.0.2"));
    assert!(matches!(e.datetime, PacmanDateTime::WithTimezone(_)));
}

#[test]
fn installed_line_without_offset_parses() {
    let line = "[2024-03-01 10:00] [ALPM] installed htop (3.3.0)".to_string();
    let e = PackageChange::from_line(line, &no_patterns()).unwrap();
    assert!(matches!(e.action, PacmanAction::Installed));
    assert_eq!(e.name, "htop");
    assert_eq!(e.previous_version, None);
    assert_eq!(e.current_version.as_deref(), Some("3.3.0"));
    match e.datetime {
        PacmanDateTime::WithoutTimezone(st) => {
            assert_eq!(st.year, 2024);
            assert_eq!(st.month, 3);
            assert_eq!(st.day, 1);
            assert_eq!(st.hour, 10);
            assert_eq!(st.minute, 0);
        },
        PacmanDateTime::WithTimezone(_) => panic!("expected the offset-less variant"),
    }
}

#[test]
fn downgraded_and_removed_parse() {
    let d = PackageChange::from_line(
        "[2024-03-01 10:00] [ALPM] downgraded linux (6.8.1 -> 6.8.0)".to_string(),
        &no_patterns(),
    )
    .unwrap();
    assert!(matches!(d.action, PacmanAction::Downgraded));
    assert_eq!(d.previous_version.as_deref(), Some("6.8.1"));
    assert_eq!(d.current_version.as_deref(), Some("6.8.0"));

    let r = PackageChange::from_line(
        "[2024-03-01 10:00] [ALPM] removed htop (3.3.0)".to_string(),
        &no_patterns(),
    )
    .unwrap();
    assert!(matches!(r.action, PacmanAction::Removed));
    assert_eq!(r.previous_version.as_deref(), Some("3.3.0"));
    assert_eq!(r.current_version, None);
}

#[test]
fn version_presence_follows_the_action_rule() {
    let cases = [
        ("[2024-03-01 10:00] [ALPM] installed a (1.0)", false, true),
        ("[2024-03-01 10:00] [ALPM] upgraded a (1.0 -> 2.0)", true, true),
        ("[2024-03-01 10:00] [ALPM] downgraded a (2.0 -> 1.0)", true, true),
        ("[2024-03-01 10:00] [ALPM] removed a (1.0)", true, false),
    ];
    for (line, has_prev, has_curr) in cases {
        let e = PackageChange::from_line(line.to_string(), &no_patterns()).unwrap();
        assert_eq!(e.previous_version.is_some(), has_prev, "{line}");
        assert_eq!(e.current_version.is_some(), has_curr, "{line}");
    }
}

#[test]
fn malformed_line_is_rejected() {
    let r = PackageChange::from_line("not a pacman log line".to_string(), &no_patterns());
    assert!(matches!(r, Err(ParseError::MalformedLine)));
}

#[test]
fn unknown_action_is_rejected() {
    let r = PackageChange::from_line(
        "[2024-03-01 10:00] [ALPM] reinstalled htop (3.3.0)".to_string(),
        &no_patterns(),
    );
    assert!(matches!(r, Err(ParseError::UnknownAction)));
}

#[test]
fn unparseable_timestamp_is_rejected() {
    let r = PackageChange::from_line(
        "[yesterday] [ALPM] installed htop (3.3.0)".to_string(),
        &no_patterns(),
    );
    assert!(matches!(r, Err(ParseError::UnparseableTimestamp)));
    let bad_month = PackageChange::from_line(
        "[2024-13-01 10:00] [ALPM] installed htop (3.3.0)".to_string(),
        &no_patterns(),
    );
    assert!(matches!(bad_month, Err(ParseError::UnparseableTimestamp)));
}

#[test]
fn missing_version_is_rejected() {
    let r = PackageChange::from_line(
        "[2024-03-01 10:00] [ALPM] upgraded vim (9.0.1)".to_string(),
        &no_patterns(),
    );
    assert!(matches!(r, Err(ParseError::MissingVersion)));
}

#[test]
fn name_mismatch_is_rejected() {
    let pats = vec![Pattern::compile("emacs")];
    let r = PackageChange::from_line(
        "[2024-03-01 10:00] [ALPM] installed htop (3.3.0)".to_string(),
        &pats,
    );
    assert!(matches!(r, Err(ParseError::NameMismatch)));
}

#[test]
fn matching_pattern_admits_the_line() {
    let pats = vec![Pattern::compile("ht*")];
    let e = PackageChange::from_line(
        "[2024-03-01 10:00] [ALPM] installed htop (3.3.0)".to_string(),
        &pats,
    )
    .unwrap();
    assert_eq!(e.name, "htop");
}

#[test]
fn trailing_junk_after_line_is_rejected() {
    let r = PackageChange::from_line(
        "[2024-03-01 10:00] [ALPM] installed htop (3.3.0) extra".to_string(),
        &no_patterns(),
    );
    assert!(r.is_err());
}

#[test]
fn empty_and_near_miss_lines_are_rejected() {
    assert!(PackageChange::from_line(String::new(), &no_patterns()).is_err());
    // an empty version field
    let r = PackageChange::from_line(
        "[2024-03-01 10:00] [ALPM] installed htop ()".to_string(),
        &no_patterns(),
    );
    assert!(matches!(r, Err(ParseError::MalformedLine)));
    // a missing [ALPM] tag
    let r2 = PackageChange::from_line(
        "[2024-03-01 10:00] installed htop (3.3.0)".to_string(),
        &no_patterns(),
    );
    assert!(matches!(r2, Err(ParseError::MalformedLine)));
}

#[test]
fn names_may_hold_the_full_character_class() {
    let e = PackageChange::from_line(
        "[2024-03-01 10:00] [ALPM] installed lib32-gcc-libs+extra_1.0@x (1:2.3.4-5)".to_string(),
        &no_patterns(),
    )
    .unwrap();
    assert_eq!(e.name, "lib32-gcc-libs+extra_1.0@x");
    assert_eq!(e.current_version.as_deref(), Some("1:2.3.4-5"));
}

#[test]
fn timestamp_displays_to_minutes() {
    let e = PackageChange::from_line(
        "[2024-03-01T10:59:59+0000] [ALPM] installed htop (3.3.0)".to_string(),
        &no_patterns(),
    )
    .unwrap();
    assert_eq!(e.datetime.display_string(), "2024-03-01 10:59");
}

#[test]
fn offset_conversion_reaches_the_local_calendar() {
    // In a UTC environment the +0100 instant 10:00 is the local time 09:00;
    // an unconverted timestamp would still read 10:00.
    let e = PackageChange::from_line(
        "[2024-03-01T10:00:00+0100] [ALPM] installed htop (3.3.0)".to_string(),
        &no_patterns(),
    )
    .unwrap();
    let rendered = e.render_plain();
    assert_eq!(rendered, "[2024-03-01 09:00] installed htop (3.3.0)");
}

#[test]
fn offset_crossing_midnight_moves_the_date() {
    let e = PackageChange::from_line(
        "[2024-03-01T00:30:00+0200] [ALPM] installed htop (3.3.0)".to_string(),
        &no_patterns(),
    )
    .unwrap();
    let d = e.date();
    assert_eq!((d.year, d.month, d.day), (2024, 2, 29));
}
