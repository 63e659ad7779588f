use material::text::{chars_of, contains_chars, push_decimal, split_lines, str_contains};

#[test]
fn chars_of_keeps_every_character() {
    assert_eq!(chars_of(""), Vec::<char>::new());
    assert_eq!(chars_of("aé\n"), vec!['a', 'é', '\n']);
}

#[test]
fn contains_finds_a_pattern_at_the_start_the_middle_and_the_end() {
    assert!(str_contains("albedo_wall", "albedo"));
    assert!(str_contains("wall_albedo_2k", "albedo"));
    assert!(str_contains("wall_albedo", "albedo"));
    assert!(str_contains("albedo", "albedo"));
}

#[test]
fn contains_rejects_what_is_not_there() {
    assert!(!str_contains("wall", "albedo"));
    assert!(!str_contains("albed", "albedo"));
    assert!(!str_contains("alb_edo", "albedo"));
    assert!(!str_contains("", "a"));
    assert!(!str_contains("aab", "aba"));
}

#[test]
fn contains_finds_a_pattern_after_a_false_start() {
    assert!(str_contains("aaab", "aab"));
    assert!(str_contains("__ao", "_ao"));
}

#[test]
fn empty_pattern_stands_everywhere() {
    assert!(str_contains("", ""));
    assert!(str_contains("abc", ""));
    assert!(contains_chars(&Vec::new(), &Vec::new()));
}

#[test]
fn contains_on_characters() {
    let text = vec!['a', 'b', 'c', 'a', 'b'];
    assert!(contains_chars(&text, &vec!['c', 'a']));
    assert!(contains_chars(&text, &text));
    assert!(!contains_chars(&text, &vec!['b', 'a']));
    assert!(!contains_chars(&text, &vec!['a', 'b', 'c', 'a', 'b', 'c']));
}

#[test]
fn lines_end_at_line_feeds() {
    assert_eq!(split_lines("one\ntwo\nthree"), vec!["one", "two", "three"]);
    assert_eq!(split_lines("one\ntwo\n"), vec!["one", "two"]);
}

#[test]
fn lines_of_an_empty_text() {
    assert_eq!(split_lines(""), Vec::<String>::new());
}

#[test]
fn empty_lines_are_lines() {
    assert_eq!(split_lines("\n"), vec![""]);
    assert_eq!(split_lines("\n\n"), vec!["", ""]);
    assert_eq!(split_lines("a\n\nb"), vec!["a", "", "b"]);
}

#[test]
fn carriage_return_before_line_feed_is_dropped() {
    assert_eq!(split_lines("one\r\ntwo\r\n"), vec!["one", "two"]);
    assert_eq!(split_lines("\r\n"), vec![""]);
    assert_eq!(split_lines("a\r\r\nb"), vec!["a\r", "b"]);
}

#[test]
fn carriage_return_alone_ends_no_line() {
    assert_eq!(split_lines("one\rtwo"), vec!["one\rtwo"]);
    assert_eq!(split_lines("foo\nbar\n\r\nbaz\r"), vec!["foo", "bar", "", "baz\r"]);
}

#[test]
fn lines_agree_with_the_standard_library() {
    let samples = [
        "",
        "\n",
        "\r",
        "\r\n",
        "a",
        "a\n",
        "a\r",
        "a\r\n",
        "a\n\r",
        "a\nb",
        "a\r\nb\r",
        "\n\n\n",
        "\r\r\n\r",
        "uid=\"uid://x\"\r\nsource_file=\"res://y\"\r\n",
    ];
    for sample in samples {
        let expected: Vec<String> = sample.lines().map(|line| line.to_owned()).collect();
        assert_eq!(split_lines(sample), expected, "{:?}", sample);
    }
}

#[test]
fn decimal_of_small_and_large_numbers() {
    for n in [0usize, 1, 9, 10, 11, 99, 100, 101, 1234567890, usize::MAX] {
        let mut out = String::new();
        push_decimal(&mut out, n);
        assert_eq!(out, format!("{}", n));
    }
}

#[test]
fn decimal_is_appended() {
    let mut out = String::from("id=");
    push_decimal(&mut out, 42);
    assert_eq!(out, "id=42");
}
