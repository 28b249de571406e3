use line_counter::count::{analyze_text, count_lines, line_is_empty, str_to_chars};

#[test]
fn analyze_mixed_content() {
    // Four lines, one of them empty, a quarter of the total.
    let stats = analyze_text("a\nb\n\nd");
    assert_eq!(stats.total_lines, 4);
    assert_eq!(stats.non_empty_lines, 3);
    assert_eq!(stats.empty_lines, 1);
    assert_eq!(stats.total_lines, stats.non_empty_lines + stats.empty_lines);
    assert_eq!(stats.empty_permille() as f64 / 10.0, 25.0);
}

#[test]
fn analyze_empty_text() {
    let stats = analyze_text("");
    assert_eq!(stats.total_lines, 0);
    assert_eq!(stats.non_empty_lines, 0);
    assert_eq!(stats.empty_lines, 0);
}

#[test]
fn analyze_only_newlines() {
    let stats = analyze_text("\n\n\n\n\n");
    assert_eq!(stats.total_lines, 5);
    assert_eq!(stats.non_empty_lines, 0);
    assert_eq!(stats.empty_lines, 5);
    assert_eq!(stats.empty_permille() as f64 / 10.0, 100.0);
}

#[test]
fn analyze_trailing_newline_boundary() {
    // The final unterminated segment still counts as one line ...
    let unterminated = analyze_text("x\ny");
    assert_eq!(unterminated.total_lines, 2);
    // ... and a trailing terminator adds no extra empty line.
    let terminated = analyze_text("x\ny\n");
    assert_eq!(terminated.total_lines, 2);
}

#[test]
fn analyze_unicode_content() {
    let stats = analyze_text("你好世界\n🎉🚀📊\n\nHello World\n");
    assert_eq!(stats.total_lines, 4);
    assert_eq!(stats.non_empty_lines, 3);
    assert_eq!(stats.empty_lines, 1);
}

#[test]
fn analyze_whitespace_only_lines() {
    let stats = analyze_text("实际内容\n   \n\t\t\n  \t  \n另一行实际内容\n");
    assert_eq!(stats.total_lines, 5);
    assert_eq!(stats.non_empty_lines, 2);
    assert_eq!(stats.empty_lines, 3);
}

#[test]
fn analyze_crlf_line_endings() {
    // Carriage returns before the terminator belong to the terminator.
    let stats = analyze_text("Unix line\r\nWindows line\r\n\r\nMac line\r\n");
    assert_eq!(stats.total_lines, 4);
    assert_eq!(stats.non_empty_lines, 3);
    assert_eq!(stats.empty_lines, 1);
}

#[test]
fn analyze_twice_gives_identical_statistics() {
    let content = "第一行\n第二行\n\n第四行";
    let first = analyze_text(content);
    let second = analyze_text(content);
    assert_eq!(first.total_lines, second.total_lines);
    assert_eq!(first.non_empty_lines, second.non_empty_lines);
    assert_eq!(first.empty_lines, second.empty_lines);
    assert_eq!(first.total_lines, 4);
    assert_eq!(first.non_empty_lines, 3);
    assert_eq!(first.empty_lines, 1);
}

#[test]
fn analyze_long_lines() {
    let long = "a".repeat(10000);
    let content = format!("短行\n{}\n另一个短行\n", long);
    let stats = analyze_text(&content);
    assert_eq!(stats.total_lines, 3);
    assert_eq!(stats.non_empty_lines, 3);
    assert_eq!(stats.empty_lines, 0);
}

#[test]
fn count_lines_on_split_lines() {
    let lines = vec![
        "第一行".to_string(),
        "第二行".to_string(),
        "".to_string(),
        "第四行".to_string(),
    ];
    let stats = count_lines(&lines);
    assert_eq!(stats.total_lines, 4);
    assert_eq!(stats.non_empty_lines, 3);
    assert_eq!(stats.empty_lines, 1);
}

#[test]
fn count_lines_on_no_lines() {
    let lines: Vec<String> = Vec::new();
    let stats = count_lines(&lines);
    assert_eq!(stats.total_lines, 0);
    assert_eq!(stats.non_empty_lines, 0);
    assert_eq!(stats.empty_lines, 0);
}

#[test]
fn blank_line_classification() {
    assert!(line_is_empty(""));
    assert!(line_is_empty("   "));
    assert!(line_is_empty("\t\t"));
    assert!(line_is_empty("  \t  "));
    // Unicode spaces count as whitespace too.
    assert!(line_is_empty("\u{00A0}\u{2003}\u{3000}"));
    assert!(!line_is_empty("x"));
    assert!(!line_is_empty("  x  "));
    // A byte-order mark is not whitespace.
    assert!(!line_is_empty("\u{FEFF}"));
    // Control characters other than whitespace are content.
    assert!(!line_is_empty("\u{0001}"));
}

#[test]
fn bom_keeps_first_line_non_empty() {
    let stats = analyze_text("\u{FEFF}第一行\n第二行\n");
    assert_eq!(stats.total_lines, 2);
    assert_eq!(stats.non_empty_lines, 2);
}

#[test]
fn str_to_chars_preserves_characters() {
    let v = str_to_chars("a✅\n");
    assert_eq!(v, vec!['a', '✅', '\n']);
}
