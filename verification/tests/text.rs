use promise_bridge::text::{append_chars, chars, contains, decimal, starts_with, tab};

/// Indentation written with the standard library's own line splitting.
fn tab_by_lines(text: &str) -> String {
    let mut result = String::new();
    for line in text.lines() {
        result.push_str("    ");
        result.push_str(line);
        result.push_str("\n");
    }
    result
}

#[test]
fn tab_indents_each_line() {
    assert_eq!(tab("a\nb"), "    a\n    b\n");
    assert_eq!(tab("a\nb\n"), "    a\n    b\n");
    assert_eq!(tab("one line"), "    one line\n");
}

#[test]
fn tab_of_nothing_is_nothing() {
    assert_eq!(tab(""), "");
}

#[test]
fn tab_keeps_empty_lines() {
    assert_eq!(tab("\n"), "    \n");
    assert_eq!(tab("a\n\nb"), "    a\n    \n    b\n");
    assert_eq!(tab("\n\n"), "    \n    \n");
}

#[test]
fn tab_drops_a_carriage_return_before_a_line_feed_only() {
    assert_eq!(tab("a\r\nb"), "    a\n    b\n");
    assert_eq!(tab("a\r"), "    a\r\n");
    assert_eq!(tab("a\rb\n"), "    a\rb\n");
    assert_eq!(tab("a\r\r\n"), "    a\r\n");
    assert_eq!(tab("\r\n"), "    \n");
}

#[test]
fn tab_agrees_with_the_standard_line_splitting() {
    let samples = [
        "",
        "\n",
        "\r",
        "\r\n",
        "\n\r",
        "a",
        "a\n",
        "a\r\n",
        "a\n\r\n\rb",
        "log output:\n    first\n    second\n",
        "    already indented\n\n\n",
        "caf\u{e9}\n\u{1f980} crab\r\nend",
        "\r\r\n\r\n\n\r",
    ];
    for sample in samples {
        assert_eq!(tab(sample), tab_by_lines(sample), "for {:?}", sample);
    }
}

#[test]
fn decimal_writes_numbers_as_the_standard_library_does() {
    assert_eq!(decimal(0), "0");
    assert_eq!(decimal(7), "7");
    assert_eq!(decimal(10), "10");
    assert_eq!(decimal(42), "42");
    assert_eq!(decimal(1009), "1009");
    for n in [0usize, 1, 9, 10, 11, 99, 100, 101, 12345, 1_000_000, usize::MAX - 1, usize::MAX] {
        assert_eq!(decimal(n), n.to_string());
    }
}

#[test]
fn contains_finds_a_pattern_anywhere() {
    assert!(contains("bridge::resolves", "bridge"));
    assert!(contains("bridge::resolves", "::"));
    assert!(contains("bridge::resolves", "resolves"));
    assert!(contains("bridge::resolves", "bridge::resolves"));
    assert!(!contains("bridge::resolves", "rejects"));
    assert!(!contains("bridge", "bridge::resolves"));
    assert!(!contains("aab", "abb"));
    assert!(contains("aaab", "aab"));
}

#[test]
fn contains_finds_the_empty_pattern_everywhere() {
    assert!(contains("", ""));
    assert!(contains("abc", ""));
    assert!(!contains("", "a"));
}

#[test]
fn contains_agrees_with_the_standard_library() {
    let texts = ["", "a", "ab", "abab", "caf\u{e9} au lait", "\u{1f980}\u{1f980}", "a-b-c"];
    let patterns = ["", "a", "b", "ab", "ba", "bab", "\u{e9}", "\u{1f980}", "-", "c", "abc"];
    for text in texts {
        for pattern in patterns {
            assert_eq!(contains(text, pattern), text.contains(pattern), "{:?} in {:?}", pattern, text);
        }
    }
}

#[test]
fn starts_with_agrees_with_the_standard_library() {
    assert!(starts_with("--nocapture", "-"));
    assert!(starts_with("-", "-"));
    assert!(!starts_with("filter", "-"));
    assert!(!starts_with("", "-"));
    assert!(starts_with("", ""));
    assert!(starts_with("__wbg_test_one", "__wbg_test"));
    assert!(!starts_with("__wbg_tes", "__wbg_test"));
    let texts = ["", "a", "ab", "ba", "\u{e9}a", "a-b"];
    let prefixes = ["", "a", "ab", "b", "\u{e9}", "a-"];
    for text in texts {
        for prefix in prefixes {
            assert_eq!(starts_with(text, prefix), text.starts_with(prefix));
        }
    }
}

#[test]
fn chars_and_append_chars_keep_every_character() {
    let text = "caf\u{e9}\n\u{1f980}";
    let all = chars(text);
    assert_eq!(all, text.chars().collect::<Vec<char>>());
    let mut copy = String::from(">");
    append_chars(&mut copy, &all);
    assert_eq!(copy, format!(">{}", text));
    assert_eq!(chars(""), Vec::<char>::new());
}
