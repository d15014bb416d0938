use hecto::editor::view::buffer::Buffer;

fn lines_of(text: &str) -> Vec<String> {
    Buffer::load(text).lines
}

fn plain(lines: &[&str]) -> Vec<String> {
    lines.iter().map(|line| line.to_string()).collect()
}

#[test]
fn new_buffer_is_empty() {
    let buffer = Buffer::default();
    assert!(buffer.is_empty());
    assert_eq!(buffer.lines.len(), 0);
}

#[test]
fn empty_text_has_no_lines() {
    let buffer = Buffer::load("");
    assert!(buffer.is_empty());
    assert_eq!(buffer.lines, Vec::<String>::new());
}

#[test]
fn loaded_buffer_is_not_empty() {
    assert!(!Buffer::load("x").is_empty());
    assert!(!Buffer::load("\n").is_empty());
}

#[test]
fn three_ended_lines_give_three_lines() {
    let lines = lines_of("first\nsecond\nthird\n");
    assert_eq!(lines.len(), 3);
    assert_eq!(lines[0], "first");
    assert_eq!(lines[1], "second");
    assert_eq!(lines[2], "third");
}

#[test]
fn last_line_needs_no_ending() {
    assert_eq!(lines_of("a\nb"), plain(&["a", "b"]));
    assert_eq!(lines_of("a\nb\n"), plain(&["a", "b"]));
    assert_eq!(lines_of("only"), plain(&["only"]));
}

#[test]
fn carriage_return_before_line_feed_is_dropped() {
    assert_eq!(lines_of("a\r\nb\r\n"), plain(&["a", "b"]));
    assert_eq!(lines_of("a\r\nb"), plain(&["a", "b"]));
    assert_eq!(lines_of("\r\n"), plain(&[""]));
}

#[test]
fn carriage_return_elsewhere_stays() {
    assert_eq!(lines_of("a\rb\n"), plain(&["a\rb"]));
    assert_eq!(lines_of("a\r"), plain(&["a\r"]));
    assert_eq!(lines_of("\r"), plain(&["\r"]));
    assert_eq!(lines_of("a\r\r\n"), plain(&["a\r"]));
    assert_eq!(lines_of("\r\r\nx\r"), plain(&["\r", "x\r"]));
}

#[test]
fn empty_lines_are_kept() {
    assert_eq!(lines_of("\n"), plain(&[""]));
    assert_eq!(lines_of("\n\n"), plain(&["", ""]));
    assert_eq!(lines_of("a\n\nb\n"), plain(&["a", "", "b"]));
    assert_eq!(lines_of("\na"), plain(&["", "a"]));
}

#[test]
fn no_line_keeps_a_line_feed() {
    for text in ["a\nb\r\nc", "\n\n\n", "x\r\n\r\ny\n", "\r\n\n\r"] {
        for line in lines_of(text) {
            assert!(!line.contains('\n'));
        }
    }
}

#[test]
fn characters_outside_ascii_are_kept() {
    assert_eq!(lines_of("héllo wörld\n日本語\r\n→ ✓"), plain(&["héllo wörld", "日本語", "→ ✓"]));
}

#[test]
fn lines_come_out_as_the_standard_library_splits_them() {
    let texts = [
        "",
        "\n",
        "\r",
        "\r\n",
        "\n\r",
        "a",
        "a\n",
        "a\r",
        "a\r\n",
        "a\n\r",
        "a\nb",
        "a\r\nb",
        "a\rb",
        "a\r\r\nb",
        "a\n\nb\n\n",
        "one\ntwo\r\nthree\rfour\n\r\nfive",
        "tab\there\n  indented\n",
    ];
    for text in texts {
        let expected: Vec<String> = text.lines().map(|line| line.to_string()).collect();
        assert_eq!(lines_of(text), expected, "text {:?}", text);
    }
}

#[test]
fn joined_lines_load_back() {
    let lines = plain(&["alpha", "", "  beta  ", "gamma\rdelta", "~"]);
    let with_line_feeds: String = lines.iter().map(|line| format!("{line}\n")).collect();
    assert_eq!(lines_of(&with_line_feeds), lines);
    let with_both: String = lines.iter().map(|line| format!("{line}\r\n")).collect();
    assert_eq!(lines_of(&with_both), lines);
}

#[test]
fn many_lines_load_in_order() {
    let mut text = String::new();
    for number in 0..2000 {
        text.push_str(&format!("line {number}\n"));
    }
    let lines = lines_of(&text);
    assert_eq!(lines.len(), 2000);
    for (number, line) in lines.iter().enumerate() {
        assert_eq!(line, &format!("line {number}"));
    }
}
