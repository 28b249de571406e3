use line_counter::decimal::{tenths_to_decimal, u64_to_decimal};
use line_counter::error::LineCounterError;
use line_counter::report::{processing_line, report_lines, usage_lines};
use line_counter::stats::LineStats;
use line_counter::validate::{
    classify_open_failure, validate_candidate, validate_file_exists, validate_file_size,
    validate_not_directory, MAX_FILE_SIZE,
};

#[test]
fn missing_file_is_rejected() {
    assert!(validate_file_exists(true, "there.txt").is_ok());
    let err = validate_file_exists(false, "nonexistent_file_12345.txt").unwrap_err();
    assert_eq!(err.message(), "文件不存在: nonexistent_file_12345.txt");
}

#[test]
fn directory_is_rejected() {
    assert!(validate_not_directory(false, "file.txt").is_ok());
    let err = validate_not_directory(true, "test_dir").unwrap_err();
    assert_eq!(err.message(), "文件是一个目录，不是文件: test_dir");
}

#[test]
fn size_limit_is_one_hundred_mebibytes() {
    assert_eq!(MAX_FILE_SIZE, 104857600);
    assert_eq!(validate_file_size(MAX_FILE_SIZE, "edge.txt").unwrap(), MAX_FILE_SIZE);
    assert_eq!(validate_file_size(0, "empty.txt").unwrap(), 0);
    let err = validate_file_size(MAX_FILE_SIZE + 1, "big.txt").unwrap_err();
    assert_eq!(err.message(), "文件过大，无法处理: big.txt, 大小: 104857601 bytes");
}

#[test]
fn pipeline_checks_in_order() {
    // Existence is checked before directory-ness, which is checked before size.
    let err = validate_candidate(false, true, MAX_FILE_SIZE + 1, "p").unwrap_err();
    assert!(matches!(err, LineCounterError::FileNotFound { .. }));
    let err = validate_candidate(true, true, MAX_FILE_SIZE + 1, "p").unwrap_err();
    assert!(matches!(err, LineCounterError::IsDirectory { .. }));
    let err = validate_candidate(true, false, MAX_FILE_SIZE + 1, "p").unwrap_err();
    assert!(matches!(err, LineCounterError::FileTooLarge { .. }));
    assert_eq!(validate_candidate(true, false, 12, "p").unwrap(), 12);
}

#[test]
fn open_failures_are_classified() {
    let gone = classify_open_failure(true, false, "gone.txt");
    assert_eq!(gone.message(), "文件不存在: gone.txt");
    let denied = classify_open_failure(false, true, "protected.txt");
    assert_eq!(denied.message(), "权限不足，无法访问文件: protected.txt");
    let other = classify_open_failure(false, false, "odd.txt");
    assert_eq!(other.message(), "无法读取文件: odd.txt");
}

#[test]
fn usage_help_names_the_program() {
    let lines = usage_lines("line-counter");
    assert_eq!(lines.len(), 3);
    assert_eq!(lines[0], "❌ 错误: 缺少文件路径参数");
    assert_eq!(lines[1], "📖 用法: line-counter <文件路径>");
    assert_eq!(lines[2], "💡 示例: line-counter example.txt");
}

#[test]
fn report_shows_counts_and_share() {
    let stats = LineStats::new(4, 3, 1);
    let lines = report_lines("example.txt", 8, &stats);
    assert_eq!(lines.len(), 7);
    assert_eq!(lines[0], "✅ 文件分析完成!");
    assert_eq!(lines[1], "📄 文件: example.txt");
    assert_eq!(lines[2], "📏 文件大小: 8 bytes");
    assert_eq!(lines[3], "📊 总行数: 4");
    assert_eq!(lines[4], "📝 非空行数: 3");
    assert_eq!(lines[5], "🔲 空行数: 1");
    assert_eq!(lines[6], "📈 空行占比: 25.0%");
}

#[test]
fn report_omits_share_without_lines() {
    let stats = LineStats::new(0, 0, 0);
    let lines = report_lines("empty.txt", 0, &stats);
    assert_eq!(lines.len(), 6);
    assert_eq!(lines[3], "📊 总行数: 0");
}

#[test]
fn processing_line_names_the_path() {
    assert_eq!(processing_line("a/b.txt"), "📊 正在处理文件: a/b.txt");
}

#[test]
fn decimal_rendering_is_exact() {
    assert_eq!(u64_to_decimal(0), "0");
    assert_eq!(u64_to_decimal(7), "7");
    assert_eq!(u64_to_decimal(104857600), "104857600");
    assert_eq!(u64_to_decimal(u64::MAX), "18446744073709551615");
    assert_eq!(tenths_to_decimal(0), "0.0");
    assert_eq!(tenths_to_decimal(7), "0.7");
    assert_eq!(tenths_to_decimal(1000), "100.0");
    assert_eq!(tenths_to_decimal(333), "33.3");
}
