use std::collections::HashSet;

use monitor::listing::{format_list, format_row, list_message, monitor_row, MonitorInfo};

fn info(id: &str, description: &str, command: &str) -> MonitorInfo {
    MonitorInfo {
        id: id.to_string(),
        description: description.to_string(),
        command: command.to_string(),
    }
}

#[test]
fn empty_list_says_so() {
    assert_eq!(list_message(&Vec::new()), "No active monitors.");
    assert_eq!(format_list(&Vec::new()), "No active monitors.");
}

#[test]
fn rows_are_joined_by_line_breaks() {
    assert_eq!(format_list(&vec!["one".to_string()]), "one");
    let rows = vec!["one".to_string(), "two".to_string(), "three".to_string()];
    assert_eq!(format_list(&rows), "one\ntwo\nthree");
}

#[test]
fn row_names_id_description_and_command() {
    assert_eq!(
        format_row("mon_1", "\"a\"", "\"b\""),
        "mon_1  description=\"a\"  command=\"b\""
    );
    assert_eq!(
        monitor_row(&info("mon_1", "errors", "tail -F app.log")),
        "mon_1  description=\"errors\"  command=\"tail -F app.log\""
    );
}

#[test]
fn each_monitor_stays_on_one_line() {
    let monitors = vec![
        info("mon_1", "two\nlines  command=\"x\"", "printf 'a\\n'\nsleep 1"),
        info("mon_2", "tab\there", "echo \"hi\""),
    ];
    let message = list_message(&monitors);
    let lines: Vec<&str> = message.split('\n').collect();
    assert_eq!(
        lines,
        vec![
            "mon_1  description=\"two\\nlines  command=\\\"x\\\"\"  command=\"printf 'a\\\\n'\\nsleep 1\"",
            "mon_2  description=\"tab\\there\"  command=\"echo \\\"hi\\\"\"",
        ]
    );
}

#[test]
fn quotes_and_backslashes_stay_inside_their_token() {
    assert_eq!(
        monitor_row(&info("mon_1", "a\"  command=\"b", "c\\")),
        "mon_1  description=\"a\\\"  command=\\\"b\"  command=\"c\\\\\""
    );
}

#[test]
fn different_texts_are_written_differently() {
    let texts = [
        "", " ", "a", "\"", "\\", "\\\"", "\n", "\\n", "\u{1}", "\\u{1}", "\u{301}", "\\u{301}", "\u{200b}",
        "'", "\u{fc}", "u\u{308}", "\u{10ffff}",
    ];
    for a in texts {
        for b in texts {
            let same = monitor_row(&info("mon_1", a, "c")) == monitor_row(&info("mon_1", b, "c"));
            assert_eq!(same, a == b);
        }
    }
}

#[test]
fn label_adds_little_to_a_row() {
    // The longest escape takes ten characters.
    let row = monitor_row(&info("mon_1", "\u{10ffff}", ""));
    assert_eq!(row, "mon_1  description=\"\\u{10ffff}\"  command=\"\"");
    for c in ["x", "\u{1}", "\u{7f}", "\u{e000}", "\u{10ffff}"] {
        let label = c.repeat(256 / c.len());
        let row = monitor_row(&info("mon_1", &label, "c"));
        assert!(row.chars().count() <= 5 + 3 + 2586);
    }
}

#[test]
fn every_character_is_written_alone_and_short() {
    let mut seen: HashSet<String> = HashSet::new();
    let mut written = 0usize;
    for n in 0..=0x10ffffu32 {
        if let Some(c) = char::from_u32(n) {
            let row = monitor_row(&info("", &c.to_string(), ""));
            let token = &row["  description=".len()..row.len() - "  command=\"\"".len()];
            let inner = &token[1..token.len() - 1];
            assert!(token.starts_with('"') && token.ends_with('"'));
            assert!(inner.chars().count() <= 10);
            assert!(!inner.contains('\n'));
            assert!(!inner.contains('"') || inner == "\\\"");
            assert!(!inner.ends_with('\\') || inner == "\\\\");
            seen.insert(token.to_string());
            written += 1;
        }
    }
    assert_eq!(seen.len(), written);
}
