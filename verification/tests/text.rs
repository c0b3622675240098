use deploy::text::{i64_text, parse_i64, split_line, trim_end};

#[test]
fn numbers_are_read_as_std_reads_them() {
    for text in [
        "", "-", "+", "0", "-0", "+0", "7", "+7", "-7", "007", "-0012", "1780000000", " 1", "1 ",
        "1_000", "--1", "+-1", "1-", "a", "1a", "٣", "１", "9223372036854775807",
        "9223372036854775808", "-9223372036854775808", "-9223372036854775809",
        "00000000000000000000000000000000000000000000000009",
        "99999999999999999999999999999999999999999999999999", "1.5", "1\n", "é",
    ] {
        assert_eq!(parse_i64(text), text.parse::<i64>().ok(), "{:?}", text);
    }
}

#[test]
fn numbers_are_written_as_std_writes_them() {
    for n in [0, 1, 9, 10, -1, -10, 302_400, 1_780_000_000, i64::MAX, i64::MIN] {
        assert_eq!(i64_text(n), n.to_string());
        assert_eq!(parse_i64(&i64_text(n)), Some(n));
    }
}

#[test]
fn trailing_runs_are_removed_as_std_removes_them() {
    for text in ["", "!", "!!!", "a", "a!", "a!!", "!a!b!!", "ação!", "!ç"] {
        assert_eq!(trim_end(text, '!'), text.trim_end_matches('!'));
    }
}

#[test]
fn first_line_is_split_off_without_its_newline() {
    assert_eq!(split_line(""), ("", ""));
    assert_eq!(split_line("a"), ("a", ""));
    assert_eq!(split_line("\n"), ("", ""));
    assert_eq!(split_line("ação\nb\nc"), ("ação", "b\nc"));
    assert_eq!(split_line("\nb"), ("", "b"));
}
