use paclogrs::date::Date;
use paclogrs::glob::Pattern;
use paclogrs::paclog::{filter_by_date, get_changes, PackageChange, PacmanAction};
use paclogrs::render::{render_all, Style};

fn no_patterns() -> Vec<Pattern> {
    Vec::new()
}

#[test]
fn upgraded_line_renders_plain() {
    let e = PackageChange::from_line(
        "[2024-03-01T10:00:00+0000] [ALPM] upgraded vim (9.0.1 -> 9.0.2)".to_string(),
        &no_patterns(),
    )
    .unwrap();
    assert_eq!(e.render_plain(), "[2024-03-01 10:00] upgraded vim (9.0.1 -> 9.0.2)");
}

#[test]
fn malformed_lines_yield_no_output() {
    let lines = vec!["not a pacman log line".to_string()];
    let changes = get_changes(&lines, &no_patterns());
    assert_eq!(changes.len(), 0);
    let rendered = render_all(&changes);
    assert_eq!(rendered.len(), 0);
}

#[test]
fn pipeline_preserves_file_order() {
    let lines = vec![
        "[2024-03-01 10:00] [ALPM] installed htop (3.3.0)".to_string(),
        "some noise the log accumulated".to_string(),
        "[2024-03-02 11:00] [ALPM] upgraded vim (9.0.1 -> 9.0.2)".to_string(),
        "[2024-03-03 12:00] [ALPM] removed htop (3.3.0)".to_string(),
    ];
    let changes = get_changes(&lines, &no_patterns());
    let rendered = render_all(&changes);
    assert_eq!(
        rendered,
        vec![
            "[2024-03-01 10:00] installed htop (3.3.0)".to_string(),
            "[2024-03-02 11:00] upgraded vim (9.0.1 -> 9.0.2)".to_string(),
            "[2024-03-03 12:00] removed htop (3.3.0)".to_string(),
        ],
    );
}

#[test]
fn date_filter_keeps_order_and_bounds() {
    let lines = vec![
        "[2024-01-10 10:00] [ALPM] installed a (1.0)".to_string(),
        "[2024-01-15 10:00] [ALPM] installed b (1.0)".to_string(),
        "[2024-01-20 10:00] [ALPM] installed c (1.0)".to_string(),
    ];
    let changes = get_changes(&lines, &no_patterns());
    let kept = filter_by_date(
        changes,
        Some(Date { year: 2024, month: 1, day: 15 }),
        Some(Date { year: 2024, month: 1, day: 12 }),
    );
    let rendered = render_all(&kept);
    assert_eq!(rendered, vec!["[2024-01-15 10:00] installed b (1.0)".to_string()]);
}

#[test]
fn name_filter_drops_lines_in_the_pipeline() {
    let lines = vec![
        "[2024-03-01 10:00] [ALPM] installed htop (3.3.0)".to_string(),
        "[2024-03-02 11:00] [ALPM] upgraded vim (9.0.1 -> 9.0.2)".to_string(),
    ];
    let pats = vec![Pattern::compile("vim")];
    let changes = get_changes(&lines, &pats);
    assert_eq!(changes.len(), 1);
    assert_eq!(changes[0].name, "vim");
}

#[test]
fn segments_concatenate_to_the_plain_line() {
    let lines = vec![
        "[2024-03-01 10:00] [ALPM] installed htop (3.3.0)".to_string(),
        "[2024-03-02 11:00] [ALPM] upgraded vim (9.0.1 -> 9.0.2)".to_string(),
        "[2024-03-03 12:00] [ALPM] downgraded linux (6.8.1 -> 6.8.0)".to_string(),
        "[2024-03-04 13:00] [ALPM] removed htop (3.3.0)".to_string(),
    ];
    for line in lines {
        let e = PackageChange::from_line(line, &no_patterns()).unwrap();
        let plain = e.render_plain();
        let joined: String = e.render_segments().into_iter().map(|s| s.text).collect();
        assert_eq!(joined, plain);
    }
}

#[test]
fn segment_styles_follow_the_action() {
    let e = PackageChange::from_line(
        "[2024-03-02 11:00] [ALPM] upgraded vim (9.0.1 -> 9.0.2)".to_string(),
        &no_patterns(),
    )
    .unwrap();
    let segs = e.render_segments();
    assert_eq!(segs.len(), 8);
    assert!(matches!(segs[0].style, Style::Dim));
    assert_eq!(segs[0].text, "[2024-03-02 11:00]");
    assert!(matches!(segs[1].style, Style::Cyan));
    assert_eq!(segs[1].text, " upgraded ");
    assert!(matches!(segs[2].style, Style::BoldYellow));
    assert_eq!(segs[2].text, "vim");
    assert!(matches!(segs[4].style, Style::Magenta));
    assert_eq!(segs[4].text, "9.0.1");
    assert!(matches!(segs[6].style, Style::Cyan));
    assert_eq!(segs[6].text, "9.0.2");
    assert!(matches!(segs[7].style, Style::Plain));

    let r = PackageChange::from_line(
        "[2024-03-04 13:00] [ALPM] removed htop (3.3.0)".to_string(),
        &no_patterns(),
    )
    .unwrap();
    let rsegs = r.render_segments();
    assert_eq!(rsegs.len(), 6);
    assert!(matches!(rsegs[1].style, Style::Red));
    assert_eq!(rsegs[1].text, " removed ");
    assert!(matches!(rsegs[4].style, Style::Magenta));
}

#[test]
fn rendered_text_reparses_to_the_same_fields() {
    let lines = [
        "[2024-03-01 10:00] [ALPM] installed htop (3.3.0)",
        "[2024-03-02 11:00] [ALPM] upgraded vim (9.0.1 -> 9.0.2)",
        "[2024-03-03 12:00] [ALPM] downgraded linux (6.8.1 -> 6.8.0)",
        "[2024-03-04 13:00] [ALPM] removed htop (3.3.0)",
    ];
    for line in lines {
        let e = PackageChange::from_line(line.to_string(), &no_patterns()).unwrap();
        let rendered = e.render_plain();
        // The renderer drops the `[ALPM]` tag; put it back to get a log line.
        let log_line = rendered.replacen("] ", "] [ALPM] ", 1);
        let e2 = PackageChange::from_line(log_line, &no_patterns()).unwrap();
        assert_eq!(e2.name, e.name);
        assert_eq!(format!("{:?}", e2.action), format!("{:?}", e.action));
        assert_eq!(e2.previous_version, e.previous_version);
        assert_eq!(e2.current_version, e.current_version);
        assert_eq!(e2.render_plain(), rendered);
    }
}

#[test]
fn actions_map_to_their_words() {
    let pairs = [
        ("installed", PacmanAction::Installed),
        ("upgraded", PacmanAction::Upgraded),
        ("downgraded", PacmanAction::Downgraded),
        ("removed", PacmanAction::Removed),
    ];
    for (word, want) in pairs {
        let line = format!("[2024-03-01 10:00] [ALPM] {word} x (1.0 -> 2.0)");
        let e = PackageChange::from_line(line, &no_patterns()).unwrap();
        assert!(e.action == want);
    }
}
