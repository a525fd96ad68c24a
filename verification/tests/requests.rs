use cli_pulse::clock::Moment;
use cli_pulse::requests::{
    acknowledge_alert, history_hours, history_since, projects_since, sanitize_export_name,
    scan_days, snooze_alert, usage_days, write_export_file, BASELINE_DAYS,
};

#[test]
fn sanitize_export_name_strips_paths_and_rejects_traversal() {
    assert_eq!(
        sanitize_export_name("cli-pulse-usage.csv").as_deref(),
        Some("cli-pulse-usage.csv")
    );
    // Directory components are stripped down to the basename.
    assert_eq!(sanitize_export_name("/etc/passwd").as_deref(), Some("passwd"));
    assert_eq!(
        sanitize_export_name(r"..\..\windows\system32\x.txt").as_deref(),
        Some("x.txt")
    );
    assert_eq!(
        sanitize_export_name("sub/dir/report.json").as_deref(),
        Some("report.json")
    );
    // Empty / dot-only / whitespace names are rejected outright.
    assert_eq!(sanitize_export_name(""), None);
    assert_eq!(sanitize_export_name("   "), None);
    assert_eq!(sanitize_export_name(".."), None);
    assert_eq!(sanitize_export_name("."), None);
    // A bare Windows drive/ADS prefix (no separator) must be rejected — it
    // would otherwise survive the split and let PathBuf::join discard the
    // Downloads base on Windows (escaping the target folder).
    assert_eq!(sanitize_export_name("C:evil.txt"), None);
    assert_eq!(sanitize_export_name("C:"), None);
    assert_eq!(sanitize_export_name("report.csv:hidden"), None);
}

#[test]
fn export_names_agree_with_std_on_odd_input() {
    for name in ["a/", "a/ b ", " .. ", "\u{3000}x\u{a0}", "a\\b/c", "...", "é/ü", "\t.\n"] {
        let last = name.rsplit(['/', '\\']).next().unwrap_or("").trim();
        let expected = if last.is_empty() || last == "." || last == ".." || last.contains(':') {
            None
        } else {
            Some(last.to_string())
        };
        assert_eq!(sanitize_export_name(name), expected, "{name:?}");
    }
}

#[test]
fn an_export_needs_a_name_and_a_directory() {
    assert_eq!(
        write_export_file("x/usage.csv", Some("/home/u/Downloads".into())),
        Ok(("/home/u/Downloads".into(), "usage.csv".into()))
    );
    assert_eq!(
        write_export_file("..", Some("/d".into())),
        Err("invalid export filename".into())
    );
    assert_eq!(
        write_export_file("usage.csv", None),
        Err("no Downloads directory available".into())
    );
    assert_eq!(write_export_file("..", None), Err("invalid export filename".into()));
}

#[test]
fn windows_are_kept_in_bounds() {
    assert_eq!([scan_days(None), scan_days(Some(0)), scan_days(Some(999))], [30, 1, 180]);
    assert_eq!([usage_days(None), usage_days(Some(0)), usage_days(Some(91))], [30, 1, 90]);
    assert_eq!(
        [history_hours(None), history_hours(Some(0)), history_hours(Some(169))],
        [24, 1, 168]
    );
    assert_eq!(scan_days(Some(77)), 77);
    assert_eq!(BASELINE_DAYS, 180);
}

#[test]
fn windows_start_before_now() {
    let now = Moment { secs: 1_777_032_000, nanos: 7 };
    assert_eq!(history_since(&now, Some(2)), Moment { secs: 1_777_032_000 - 7200, nanos: 7 });
    assert_eq!(projects_since(&now, None), Moment { secs: 1_777_032_000 - 2_592_000, nanos: 7 });
}

#[test]
fn times_are_sent_in_rfc_3339() {
    let now = Moment { secs: 1_777_032_000, nanos: 0 };
    assert_eq!(acknowledge_alert(&now), "2026-04-24T12:00:00+00:00");
    assert_eq!(snooze_alert(&now, 90), "2026-04-24T13:30:00+00:00");
    assert_eq!(snooze_alert(&now, -60), "2026-04-24T11:00:00+00:00");
}
