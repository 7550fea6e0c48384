use vyges_remap::text::{chars_of, contains, int_to_text, nat_to_text, tail};

#[test]
fn tail_keeps_the_last_six_lines() {
    assert_eq!(tail("1\n2\n3\n4\n5\n6\n7\n8\n"), "3\n4\n5\n6\n7\n8");
    assert_eq!(tail("1\n2\n3\n4\n5\n6\n7"), "2\n3\n4\n5\n6\n7");
}

#[test]
fn tail_keeps_a_short_text() {
    assert_eq!(tail(""), "");
    assert_eq!(tail("one"), "one");
    assert_eq!(tail("one\n"), "one");
    assert_eq!(tail("one\n\n"), "one\n");
    assert_eq!(tail("\n"), "");
    assert_eq!(tail("a\nb\nc\nd\ne\nf"), "a\nb\nc\nd\ne\nf");
}

#[test]
fn tail_drops_the_carriage_return_of_a_line_ending_only() {
    assert_eq!(tail("a\r\nb\r\n"), "a\nb");
    assert_eq!(tail("a\rb\nc\r"), "a\rb\nc\r");
    assert_eq!(tail("a\r\r\nb"), "a\r\nb");
    assert_eq!(tail("\r\n"), "");
}

#[test]
fn tail_reads_lines_as_the_standard_library_does() {
    for s in ["", "\n\n\n", "a\r\n\r\nb", "é\n\u{2014}\n", "x\n\r", "1\n2\n3\n4\n5\n6\n7\r\n8"] {
        let mut l: Vec<&str> = s.lines().rev().take(6).collect();
        l.reverse();
        assert_eq!(tail(s), l.join("\n"));
    }
}

#[test]
fn the_tail_of_a_tail_is_no_longer() {
    let s = "1\n2\n3\n4\n5\n6\n7\n8\n9";
    assert_eq!(tail(&tail(s)), tail(s));
    assert_eq!(tail(s).lines().count(), 6);
}

#[test]
fn a_word_is_found_anywhere() {
    assert!(contains("abcabd", "abd"));
    assert!(contains("abc", "abc"));
    assert!(contains("abc", ""));
    assert!(contains("", ""));
    assert!(!contains("ab", "abc"));
    assert!(!contains("abcabc", "abd"));
    assert!(contains("…é—é", "—é"));
}

#[test]
fn integers_are_written_in_decimal() {
    assert_eq!(nat_to_text(0), "0");
    assert_eq!(nat_to_text(9876543210), "9876543210");
    assert_eq!(nat_to_text(u64::MAX), "18446744073709551615");
    assert_eq!(int_to_text(-1), "-1");
    assert_eq!(int_to_text(127), "127");
    assert_eq!(int_to_text(i32::MIN), "-2147483648");
    assert_eq!(int_to_text(i32::MAX), "2147483647");
}

#[test]
fn characters_of_a_text() {
    assert_eq!(chars_of("aé\n"), vec!['a', 'é', '\n']);
}
