use daily_wallpaper::logger::{tail_lines, LOG_TAIL_LINES};

fn std_tail(content: &str, count: usize) -> String {
    let lines: Vec<&str> = content.lines().collect();
    let start = lines.len().saturating_sub(count);
    lines[start..].join("\n")
}

#[test]
fn tail_keeps_the_last_lines() {
    assert_eq!(tail_lines("a\nb\nc\nd", 2), "c\nd");
    assert_eq!(tail_lines("a\nb\nc\nd\n", 2), "c\nd");
    assert_eq!(tail_lines("a\nb\nc\nd", 1), "d");
    assert_eq!(tail_lines("a\nb\nc\nd", 4), "a\nb\nc\nd");
    assert_eq!(tail_lines("a\nb\nc\nd", 9), "a\nb\nc\nd");
    assert_eq!(tail_lines("a\nb", 0), "");
}

#[test]
fn tail_of_short_or_empty_log() {
    assert_eq!(tail_lines("", 200), "");
    assert_eq!(tail_lines("\n", 200), "");
    assert_eq!(tail_lines("only", 200), "only");
    assert_eq!(tail_lines("\n\n", 200), "\n");
    assert_eq!(tail_lines("a\n\nb", 200), "a\n\nb");
}

#[test]
fn tail_drops_carriage_returns_before_line_feeds() {
    assert_eq!(tail_lines("a\r\nb\r\n", 5), "a\nb");
    assert_eq!(tail_lines("a\rb\r\nc\r", 5), "a\rb\nc\r");
    assert_eq!(tail_lines("\r\n\r\n", 5), "\n");
    assert_eq!(tail_lines("a\r\r\nb", 5), "a\r\nb");
}

#[test]
fn tail_shows_two_hundred_lines_of_a_long_log() {
    assert_eq!(LOG_TAIL_LINES, 200);
    let mut log = String::new();
    for line in 0..500 {
        log.push_str(&format!("line {}\n", line));
    }
    let tail = tail_lines(&log, LOG_TAIL_LINES);
    let lines: Vec<&str> = tail.split('\n').collect();
    assert_eq!(lines.len(), 200);
    assert_eq!(lines[0], "line 300");
    assert_eq!(lines[199], "line 499");
}

#[test]
fn tail_agrees_with_the_standard_line_rules() {
    let logs = [
        "",
        "\n",
        "\r",
        "\r\n",
        "a",
        "a\n",
        "a\r",
        "a\r\n",
        "\na",
        "\n\n\n",
        "a\n\nb\n",
        "a\r\n\r\nb",
        "one\ntwo\r\nthree\rfour\n\rfive",
        "\u{e9}\n\u{1f600}\r\n\u{20ac}",
    ];
    for log in logs {
        for count in [0usize, 1, 2, 3, 200] {
            assert_eq!(tail_lines(log, count), std_tail(log, count), "{:?} {}", log, count);
        }
    }
}
