use kwality_runtime_validator::text::{
    contains_text, decimal, ends_with, fixed, from_chars, join_range, replace_all, same_text,
    signed_decimal, split_on, starts_with, thousandths, to_chars,
};

fn chars(s: &str) -> Vec<char> {
    s.chars().collect()
}

fn text(v: &Vec<char>) -> String {
    v.iter().collect()
}

#[test]
fn chars_round_trip() {
    let source = "héllo, wörld";
    let as_chars = to_chars(source);
    assert_eq!(as_chars.len(), 12);
    assert_eq!(from_chars(&as_chars), source);
    assert_eq!(from_chars(&Vec::new()), "");
}

#[test]
fn decimal_notation() {
    assert_eq!(decimal(0), "0");
    assert_eq!(decimal(7), "7");
    assert_eq!(decimal(1024), "1024");
    assert_eq!(decimal(u64::MAX), "18446744073709551615");
    assert_eq!(signed_decimal(-1), "-1");
    assert_eq!(signed_decimal(0), "0");
    assert_eq!(signed_decimal(i64::MIN), "-9223372036854775808");
    assert_eq!(signed_decimal(i64::MAX), "9223372036854775807");
}

#[test]
fn fixed_point_notation() {
    assert_eq!(fixed(95_500_000, 1), "95.5");
    assert_eq!(fixed(95_549_999, 1), "95.5");
    assert_eq!(fixed(95_550_000, 1), "95.6");
    assert_eq!(fixed(12_345_678, 2), "12.35");
    assert_eq!(fixed(12_344_999, 2), "12.34");
    assert_eq!(fixed(0, 2), "0.00");
    assert_eq!(fixed(1_000_001, 6), "1.000001");
    assert_eq!(fixed(5_000, 2), "0.01");
    assert_eq!(fixed(4_999, 2), "0.00");
    assert_eq!(fixed(999_999, 1), "1.0");
    assert_eq!(fixed(9_999_950, 1), "10.0");
    assert_eq!(fixed(u64::MAX, 1), "18446744073709.6");
    assert_eq!(fixed(u64::MAX, 6), "18446744073709.551615");
    assert_eq!(thousandths(1_234), "1.234");
    assert_eq!(thousandths(5), "0.005");
    assert_eq!(thousandths(120_000), "120.000");
}

#[test]
fn suffixes_and_prefixes() {
    assert!(ends_with("main.go", ".go"));
    assert!(!ends_with("main.go", ".rs"));
    assert!(ends_with("x", ""));
    assert!(!ends_with("go", "main.go"));
    assert!(starts_with("/etc/passwd", "/etc"));
    assert!(!starts_with("/tmp/x", "/etc"));
    assert!(same_text("abc", "abc"));
    assert!(!same_text("abc", "abd"));
    assert!(!same_text("abc", "ab"));
}

#[test]
fn list_membership() {
    let list = vec!["ptrace".to_string(), "mount".to_string()];
    assert!(contains_text(&list, "mount"));
    assert!(!contains_text(&list, "umount"));
    assert!(!contains_text(&Vec::new(), "mount"));
}

#[test]
fn replacing_scans_left_to_right() {
    assert_eq!(text(&replace_all(&chars("main.rs"), &chars(".rs"), &chars(""))), "main");
    assert_eq!(text(&replace_all(&chars("a.rs.rs"), &chars(".rs"), &chars(""))), "a");
    assert_eq!(text(&replace_all(&chars("aaa"), &chars("aa"), &chars("b"))), "ba");
    assert_eq!(text(&replace_all(&chars("x{}y{}"), &chars("{}"), &chars("42"))), "x42y42");
    assert_eq!(text(&replace_all(&chars("abc"), &chars(""), &chars("z"))), "abc");
    assert_eq!(text(&replace_all(&chars(""), &chars("a"), &chars("z"))), "");
}

#[test]
fn splitting_keeps_empty_pieces() {
    let pieces = split_on(&chars("a\n\nb\n"), '\n');
    let got: Vec<String> = pieces.iter().map(text).collect();
    assert_eq!(got, vec!["a", "", "b", ""]);
    let one = split_on(&chars("no newline"), '\n');
    assert_eq!(one.len(), 1);
    let none = split_on(&chars(""), '\n');
    assert_eq!(none.len(), 1);
    assert_eq!(text(&none[0]), "");
}

#[test]
fn joining_a_range() {
    let pieces = vec![chars("a"), chars("b"), chars("c"), chars("d")];
    assert_eq!(text(&join_range(&pieces, 1, 3, &chars("\n"))), "b\nc");
    assert_eq!(text(&join_range(&pieces, 0, 4, &chars(", "))), "a, b, c, d");
    assert_eq!(text(&join_range(&pieces, 2, 2, &chars("\n"))), "");
    assert_eq!(text(&join_range(&pieces, 3, 4, &chars("\n"))), "d");
}
