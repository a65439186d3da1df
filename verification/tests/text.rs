use vm_agent::clock::{epoch_millis_of, Duration};
use vm_agent::text::{
    chars_of, decimal_string, parse_i32, parse_i64, parse_u64, split_fields, split_lines,
    starts_with, trim, trimmed_string,
};

fn strings(v: Vec<Vec<char>>) -> Vec<String> {
    v.into_iter().map(|c| c.into_iter().collect()).collect()
}

#[test]
fn numbers_parse_like_std() {
    assert_eq!(parse_u64("0"), Some(0));
    assert_eq!(parse_u64("+42"), Some(42));
    assert_eq!(parse_u64("18446744073709551615"), Some(u64::MAX));
    assert_eq!(parse_u64("18446744073709551616"), None);
    assert_eq!(parse_u64(""), None);
    assert_eq!(parse_u64(" 1"), None);
    assert_eq!(parse_u64("-1"), None);
    assert_eq!(parse_u64("+"), None);
    assert_eq!(parse_u64("1_000"), None);
    assert_eq!(parse_i64("-"), None);
    assert_eq!(parse_i64("+7"), Some(7));
    assert_eq!(parse_i64("-9223372036854775808"), Some(i64::MIN));
    assert_eq!(parse_i64("9223372036854775808"), None);
    assert_eq!(parse_i32("-17"), Some(-17));
    assert_eq!(parse_i32("2147483648"), None);
    assert_eq!(decimal_string(0), "0");
    assert_eq!(decimal_string(1_700_000_000), "1700000000");
    assert_eq!(decimal_string(u64::MAX), "18446744073709551615");
}

#[test]
fn lines_and_fields_split_like_std() {
    let lines = split_lines(&chars_of("a\r\nb\n\nc"));
    assert_eq!(strings(lines), vec!["a", "b", "", "c"]);
    let lines = split_lines(&chars_of("x\n"));
    assert_eq!(strings(lines), vec!["x"]);
    assert!(split_lines(&chars_of("")).is_empty());
    let fields = split_fields(&chars_of("  cpu\t1  2 \n"));
    assert_eq!(strings(fields), vec!["cpu", "1", "2"]);
}

#[test]
fn trimming_and_prefixes() {
    assert_eq!(trim(" \t x y \n"), "x y");
    assert_eq!(trimmed_string("\u{3000}a\u{3000}"), "a");
    assert!(starts_with("https://x", "https://"));
    assert!(!starts_with("http", "https://"));
}

#[test]
fn epoch_millis_of_clock_readings() {
    assert_eq!(epoch_millis_of(0, 0), 0);
    assert_eq!(epoch_millis_of(1, 999_999_999), 1999);
    assert_eq!(epoch_millis_of(1_700_000_000, 123_456_789), 1_700_000_000_123);
    assert_eq!(epoch_millis_of(u64::MAX, 0), u64::MAX as u128 * 1000);
    assert_eq!(epoch_millis_of(u64::MAX, 999_999_999), u64::MAX as u128 * 1000 + 999);
}

#[test]
fn durations_reach_std_range() {
    assert_eq!(Duration::from_secs(u64::MAX).as_millis(), u64::MAX as u128 * 1000);
    assert_eq!(Duration::from_secs(u64::MAX).as_secs(), u64::MAX);
    assert_eq!(Duration::from_secs(100_000_000_000_000_000).as_millis(), 100_000_000_000_000_000_000);
    assert_eq!(Duration::from_secs(3).as_millis(), 3000);
    assert_eq!(Duration::from_millis(2500).as_secs(), 2);
    let a = Duration::from_millis(700);
    let b = Duration::from_millis(300);
    assert_eq!(a.saturating_sub(b).as_millis(), 400);
    assert!(b.saturating_sub(a).is_zero());
    assert_eq!(
        Duration::from_millis(u64::MAX).saturating_add(a).as_millis(),
        u64::MAX as u128 + 700
    );
    let longest = Duration::from_secs(u64::MAX).saturating_add(Duration::from_millis(999));
    assert_eq!(longest.as_millis(), u64::MAX as u128 * 1000 + 999);
    assert_eq!(longest.saturating_add(a), longest);
    assert_eq!(longest.doubled_capped(longest), longest);
    assert_eq!(a.max(b), a);
    assert_eq!(a.min(b), b);
    assert_eq!(a.doubled_capped(Duration::from_millis(1000)).as_millis(), 1000);
    assert_eq!(b.doubled_capped(Duration::from_millis(1000)).as_millis(), 600);
}

#[test]
fn text_primitives_agree_with_std() {
    let samples = [
        "", "\n", "\r\n", "a", "a\n", "a\r", "a\r\n", "\ra", "a\r\r\n", "a\n\nb", "  a b\t\n c  ",
        "x\u{3000}y\u{85}z", "\u{a0}\u{2009}", "12", "+12", "-12", "007", "18446744073709551615",
        "18446744073709551616", "-9223372036854775808", "9223372036854775807", "+", "-", " 1",
        "1 ", "１", "2147483647", "-2147483648", "2147483648",
    ];
    for s in samples {
        let lines: Vec<String> = split_lines(&chars_of(s)).into_iter().map(|c| c.into_iter().collect()).collect();
        let std_lines: Vec<String> = s.lines().map(|l| l.to_string()).collect();
        assert_eq!(lines, std_lines, "lines of {s:?}");
        let fields: Vec<String> = split_fields(&chars_of(s)).into_iter().map(|c| c.into_iter().collect()).collect();
        let std_fields: Vec<String> = s.split_whitespace().map(|l| l.to_string()).collect();
        assert_eq!(fields, std_fields, "fields of {s:?}");
        assert_eq!(trim(s), s.trim(), "trim of {s:?}");
        assert_eq!(parse_u64(s), s.parse::<u64>().ok(), "u64 of {s:?}");
        assert_eq!(parse_i64(s), s.parse::<i64>().ok(), "i64 of {s:?}");
        assert_eq!(parse_i32(s), s.parse::<i32>().ok(), "i32 of {s:?}");
    }
}
