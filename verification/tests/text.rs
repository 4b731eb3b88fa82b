use srun::text::{
    copy_pairs, copy_str, copy_strings, decimal, from_chars, from_chars_range, has_char,
    index_of, join, last_part, remove_char, starts_with, strip, strip_prefixes, to_chars,
    trim_end, write_lines,
};

#[test]
fn chars_go_in_and_out() {
    let v = to_chars("héllo");
    assert_eq!(v, vec!['h', 'é', 'l', 'l', 'o']);
    assert_eq!(from_chars(&v), "héllo");
    assert_eq!(from_chars_range(&v, 1, 3), "él");
    assert_eq!(from_chars_range(&v, 2, 2), "");
    assert_eq!(copy_str("abc"), "abc");
}

#[test]
fn copies_keep_order() {
    let v = vec![String::from("a"), String::from(""), String::from("b")];
    assert_eq!(copy_strings(&v), v);
    let p = vec![(String::from("k"), String::from("v")), (String::from("x"), String::from(""))];
    assert_eq!(copy_pairs(&p), p);
}

#[test]
fn decimal_writes_base_ten() {
    assert_eq!(decimal(0), "0");
    assert_eq!(decimal(7), "7");
    assert_eq!(decimal(10), "10");
    assert_eq!(decimal(1234567890), "1234567890");
    assert_eq!(decimal(u64::MAX), "18446744073709551615");
}

#[test]
fn prefix_is_tested_by_characters() {
    assert!(starts_with("data:,x", "data:"));
    assert!(starts_with("data:", "data:"));
    assert!(starts_with("anything", ""));
    assert!(!starts_with("dat", "data:"));
    assert!(!starts_with("Data:,x", "data:"));
}

#[test]
fn first_index_is_found() {
    let v = to_chars("a/b/c");
    assert_eq!(index_of(&v, 0, '/'), 1);
    assert_eq!(index_of(&v, 1, '/'), 1);
    assert_eq!(index_of(&v, 2, '/'), 3);
    assert_eq!(index_of(&v, 4, '/'), 5);
    assert_eq!(index_of(&v, 5, '/'), 5);
    assert!(has_char("a:b", ':'));
    assert!(!has_char("ab", ':'));
}

#[test]
fn trailing_whitespace_is_taken_off() {
    assert_eq!(trim_end("hi \t\r\n"), "hi");
    assert_eq!(trim_end("  hi  there  "), "  hi  there");
    assert_eq!(trim_end("hi\u{a0}\u{2003}"), "hi");
    assert_eq!(trim_end(" \n"), "");
    assert_eq!(trim_end(""), "");
}

#[test]
fn quotes_are_stripped_at_both_ends() {
    assert_eq!(strip("\"sha256:ab\"", '"'), "sha256:ab");
    assert_eq!(strip("\"\"a\"b\"\"", '"'), "a\"b");
    assert_eq!(strip("plain", '"'), "plain");
    assert_eq!(strip("\"\"\"", '"'), "");
}

#[test]
fn last_part_follows_the_last_separator() {
    assert_eq!(last_part("sha256:abc", ':'), "abc");
    assert_eq!(last_part("a:b:c", ':'), "c");
    assert_eq!(last_part("abc", ':'), "abc");
    assert_eq!(last_part("abc:", ':'), "");
}

#[test]
fn characters_are_removed() {
    assert_eq!(remove_char("a\nb\n\nc", '\n'), "abc");
    assert_eq!(remove_char("\n", '\n'), "");
    assert_eq!(remove_char("abc", '\n'), "abc");
}

#[test]
fn join_puts_the_separator_between() {
    let parts = vec![String::from("a"), String::from("b"), String::from("c")];
    assert_eq!(join(&parts, " && "), "a && b && c");
    assert_eq!(join(&vec![String::from("a")], " && "), "a");
    assert_eq!(join(&vec![], " && "), "");
    assert_eq!(join(&vec![String::new(), String::new()], ","), ",");
}

#[test]
fn lines_end_with_a_line_feed() {
    assert_eq!(write_lines(&vec![String::from("echo hi"), String::from("exit 7")]), "echo hi\nexit 7\n");
    assert_eq!(write_lines(&vec![]), "");
}

#[test]
fn repeated_prefixes_are_taken_off() {
    assert_eq!(strip_prefixes("/tmp/x/Dockerfile", "/tmp/x/"), "Dockerfile");
    assert_eq!(strip_prefixes("ababab-c", "ab"), "-c");
    assert_eq!(strip_prefixes("abc", ""), "abc");
    assert_eq!(strip_prefixes("abc", "abcd"), "abc");
    assert_eq!(strip_prefixes("abc", "abc"), "");
}

fn listed_as_whitespace(c: char) -> bool {
    let v = c as u32;
    (0x09..=0x0D).contains(&v)
        || v == 0x20
        || v == 0x85
        || v == 0xA0
        || v == 0x1680
        || (0x2000..=0x200A).contains(&v)
        || v == 0x2028
        || v == 0x2029
        || v == 0x202F
        || v == 0x205F
        || v == 0x3000
}

#[test]
fn exactly_the_listed_characters_are_trimmed() {
    let mut trimmed = 0;
    for v in 0..=0x10FFFFu32 {
        if let Some(c) = char::from_u32(v) {
            let mut text = String::from("x");
            text.push(c);
            let gone = trim_end(&text) == "x";
            assert_eq!(gone, listed_as_whitespace(c), "U+{:04X}", v);
            if gone {
                trimmed += 1;
            }
        }
    }
    assert_eq!(trimmed, 25);
}
