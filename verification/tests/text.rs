use textview::text::{chars_of, decimal_string, lines, spaces_string, string_of};

#[test]
fn lines_of_an_empty_text() {
    assert_eq!(lines(""), Vec::<String>::new());
}

#[test]
fn lines_end_with_a_line_feed() {
    assert_eq!(lines("a\nb\n"), vec!["a", "b"]);
    assert_eq!(lines("a\nb"), vec!["a", "b"]);
    assert_eq!(lines("only"), vec!["only"]);
    assert_eq!(lines("\n"), vec![""]);
    assert_eq!(lines("\n\n"), vec!["", ""]);
    assert_eq!(lines("a\n\nb"), vec!["a", "", "b"]);
}

#[test]
fn lines_end_with_a_carriage_return_and_a_line_feed() {
    assert_eq!(lines("a\r\nb\r\n"), vec!["a", "b"]);
    assert_eq!(lines("\r\n"), vec![""]);
    assert_eq!(lines("a\r\n\r\nb"), vec!["a", "", "b"]);
}

#[test]
fn lines_keep_other_carriage_returns() {
    assert_eq!(lines("a\rb\n"), vec!["a\rb"]);
    assert_eq!(lines("a\r"), vec!["a\r"]);
    assert_eq!(lines("a\r\r\n"), vec!["a\r"]);
    assert_eq!(lines("\r"), vec!["\r"]);
}

#[test]
fn lines_agree_with_the_standard_library() {
    let samples = [
        "",
        "\n",
        "\r",
        "\r\n",
        "\n\r",
        "a",
        "a\n",
        "a\r\n",
        "a\r",
        "a\nb",
        "a\r\nb\r",
        "a\r\r\nb",
        "世界\ne\u{301}\n\n",
        "one\ntwo\r\nthree\rfour\n\r\nfive",
    ];
    for text in samples {
        let expected: Vec<String> = text.lines().map(String::from).collect();
        assert_eq!(lines(text), expected, "{text:?}");
    }
}

#[test]
fn decimal_string_writes_numbers() {
    assert_eq!(decimal_string(0), "0");
    assert_eq!(decimal_string(7), "7");
    assert_eq!(decimal_string(10), "10");
    assert_eq!(decimal_string(109), "109");
    assert_eq!(decimal_string(12345), "12345");
    assert_eq!(decimal_string(usize::MAX), format!("{}", usize::MAX));
}

#[test]
fn spaces_string_makes_a_run_of_spaces() {
    assert_eq!(spaces_string(0), "");
    assert_eq!(spaces_string(1), " ");
    assert_eq!(spaces_string(5), "     ");
}

#[test]
fn chars_of_gives_the_characters() {
    assert_eq!(chars_of(""), Vec::<char>::new());
    assert_eq!(chars_of("a世\u{301}"), vec!['a', '世', '\u{301}']);
}

#[test]
fn string_of_takes_a_range_of_characters() {
    let chars = vec!['a', '世', 'b', '界'];
    assert_eq!(string_of(&chars, 0, 4), "a世b界");
    assert_eq!(string_of(&chars, 1, 3), "世b");
    assert_eq!(string_of(&chars, 2, 2), "");
}
