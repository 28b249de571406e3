use line_counter::error::LineCounterError;

#[test]
fn test_line_counter_error_display() {
    let err = LineCounterError::FileNotFound { path: "test.txt".to_string() };
    assert_eq!(err.message(), "文件不存在: test.txt");
}

#[test]
fn test_missing_argument_error() {
    let err = LineCounterError::MissingArgument;
    assert_eq!(err.message(), "缺少必需的文件路径参数");
}

#[test]
fn test_file_too_large_error() {
    let err = LineCounterError::FileTooLarge {
        path: "big_file.txt".to_string(),
        size: 1024 * 1024 * 200, // 200MB
    };
    assert!(err.message().contains("文件过大"));
    assert!(err.message().contains("209715200 bytes"));
}

#[test]
fn test_permission_denied_error() {
    let err = LineCounterError::PermissionDenied { path: "protected_file.txt".to_string() };
    assert_eq!(err.message(), "权限不足，无法访问文件: protected_file.txt");
}

#[test]
fn test_is_directory_error() {
    let err = LineCounterError::IsDirectory { path: "some_directory".to_string() };
    assert_eq!(err.message(), "文件是一个目录，不是文件: some_directory");
}

#[test]
fn invalid_path_message() {
    let err = LineCounterError::InvalidPath { path: "bad\u{0}path".to_string() };
    assert_eq!(err.message(), "文件路径无效: bad\u{0}path");
}

#[test]
fn file_read_error_message() {
    let err = LineCounterError::FileReadError { path: "odd.txt".to_string() };
    assert_eq!(err.message(), "无法读取文件: odd.txt");
}

#[test]
fn io_error_message_carries_cause() {
    let err = LineCounterError::IoError("unexpected end of file".to_string());
    assert_eq!(err.message(), "IO错误: unexpected end of file");
}

#[test]
fn file_too_large_message_exact() {
    let err = LineCounterError::FileTooLarge { path: "huge.bin".to_string(), size: 104857601 };
    assert_eq!(err.message(), "文件过大，无法处理: huge.bin, 大小: 104857601 bytes");
}
