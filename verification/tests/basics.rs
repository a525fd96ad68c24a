use cli_pulse::clock::Moment;
use cli_pulse::number::Double;
use cli_pulse::text;

#[test]
fn white_space_is_what_std_takes_for_it() {
    for c in '\0'..=char::MAX {
        assert_eq!(text::is_white(c), c.is_whitespace(), "{c:?}");
    }
}

#[test]
fn texts_are_cut_and_filled_as_std_does() {
    for s in ["", " ", " a ", "\u{a0}é\u{3000}", "a b", "\n\t"] {
        assert_eq!(text::trim(s), s.trim());
    }
    for (s, p, w) in [("aaa", "aa", "b"), ("", "x", "y"), ("é{n}é{n}", "{n}", "$1"), ("ab", "abc", "")] {
        assert_eq!(text::replace(s, p, w), s.replace(p, w));
        assert_eq!(text::contains(s, p), s.contains(p));
        assert_eq!(text::starts_with(s, p), s.starts_with(p));
    }
    assert!(text::contains("x", ""));
    assert_eq!(text::take("éüx", 2), "éü");
    assert_eq!(text::take("é", 2), "é");
    assert_eq!(text::basename(r"a/b\c"), "c");
    assert_eq!(text::basename("a/"), "");
    assert_eq!(text::basename("plain"), "plain");
    assert!(text::same("é", "é") && !text::same("e", "é") && !text::same("a", "ab"));
}

#[test]
fn numbers_are_written_as_std_does() {
    for n in [0u64, 7, 10, 99, 100, u64::MAX] {
        assert_eq!(text::decimal(n), n.to_string());
    }
    for n in [0i64, 5, -5, 12345, -12345, i64::MAX] {
        assert_eq!(text::padded(n, 4), format!("{n:04}"));
        assert_eq!(text::padded(n, 2), format!("{n:02}"));
    }
}

#[test]
fn doubles_are_compared_as_the_machine_does() {
    let values = [
        0.0, -0.0, 1.0, -1.0, 20.0, 80.0, 1e300, -1e300, 5e-324, -5e-324, f64::MAX, f64::MIN,
        f64::INFINITY, f64::NEG_INFINITY, f64::NAN, -f64::NAN, f64::MIN_POSITIVE,
    ];
    for a in values {
        let x = Double { bits: a.to_bits() };
        assert_eq!(x.is_usable(), a.is_finite() && a > 0.0, "{a}");
        for b in values {
            let y = Double { bits: b.to_bits() };
            assert_eq!(x.exceeds(&y), a > b, "{a} {b}");
            assert_eq!(x.reaches(&y), a >= b, "{a} {b}");
        }
    }
    assert_eq!(f64::from_bits(Double::eighty().bits), 80.0);
}

#[test]
fn moments_follow_the_calendar() {
    let noon = Moment { secs: 1_777_032_000, nanos: 5_000_000 };
    assert_eq!(noon.to_rfc3339(), "2026-04-24T12:00:00.005+00:00");
    assert_eq!(noon.stamp(), "2026-04-24T12:00:00Z");
    assert_eq!(Moment { secs: 0, nanos: 0 }.day(), 719_163);
    assert_eq!(Moment { secs: -1, nanos: 0 }.day(), 719_162);
    assert_eq!(noon.shifted(60), Some(Moment { secs: 1_777_032_060, nanos: 5_000_000 }));
    assert_eq!(noon.shifted(i64::MAX), None);
    assert_eq!(Moment { secs: 8_210_266_876_799, nanos: 0 }.shifted(1), None);
    assert!(Moment { secs: -8_334_601_228_800, nanos: 0 }.shifted(-1).is_none());
}

#[test]
fn the_calendar_ends_where_chrono_says() {
    let first = chrono::DateTime::<chrono::Utc>::MIN_UTC.timestamp();
    let last = chrono::DateTime::<chrono::Utc>::MAX_UTC.timestamp();
    assert_eq!((first, last), (-8_334_601_228_800, 8_210_266_876_799));
}

#[test]
fn the_clock_runs() {
    let a = Moment::now();
    let b = Moment::now();
    assert!(a.secs > 1_700_000_000 && a.nanos < 1_000_000_000);
    assert!(b.seconds_since(&a) < 20);
    assert_eq!(a.seconds_since(&Moment { secs: a.secs - 5, nanos: a.nanos }), 5);
}
