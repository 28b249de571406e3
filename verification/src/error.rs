//! The closed set of failure kinds a run can end with.

use vstd::prelude::*;
use vstd::string::StringExecFns;

use crate::decimal::{decimal_of, u64_to_decimal};

verus! {

/// Everything that can go wrong between the command line and the final
/// report. Each variant carries the context a user needs to see; the
/// exact wording is pinned down by [`LineCounterError::spec_message`].
#[derive(Debug)]
pub enum LineCounterError {
    /// The path string is malformed for the platform.
    InvalidPath { path: String },
    /// The path resolves to no filesystem entry.
    FileNotFound { path: String },
    /// The file could be opened but not read.
    FileReadError { path: String },
    /// The path resolves to a directory, not a file.
    IsDirectory { path: String },
    /// The operating system denied access to the file.
    PermissionDenied { path: String },
    /// The file's byte length exceeds the fixed processing limit.
    FileTooLarge { path: String, size: u64 },
    /// No file path was given on the command line.
    MissingArgument,
    /// Any other input/output failure, with the underlying cause.
    IoError(String),
}

impl LineCounterError {
    /// The user-facing description of this error, character by character.
    pub open spec fn spec_message(self) -> Seq<char> {
        match self {
            LineCounterError::InvalidPath { path } => "文件路径无效: "@ + path@,
            LineCounterError::FileNotFound { path } => "文件不存在: "@ + path@,
            LineCounterError::FileReadError { path } => "无法读取文件: "@ + path@,
            LineCounterError::IsDirectory { path } => "文件是一个目录，不是文件: "@ + path@,
            LineCounterError::PermissionDenied { path } => "权限不足，无法访问文件: "@ + path@,
            LineCounterError::FileTooLarge { path, size } => "文件过大，无法处理: "@ + path@
                + ", 大小: "@ + decimal_of(size as nat) + " bytes"@,
            LineCounterError::MissingArgument => "缺少必需的文件路径参数"@,
            LineCounterError::IoError(detail) => "IO错误: "@ + detail@,
        }
    }

    /// Renders the error for the user.
    pub fn message(&self) -> (r: String)
        ensures
            r@ == self.spec_message(),
    {
        let r = match self {
            LineCounterError::InvalidPath { path } => {
                let mut s = String::from_str("文件路径无效: ");
                s.append(path.as_str());
                s
            },
            LineCounterError::FileNotFound { path } => {
                let mut s = String::from_str("文件不存在: ");
                s.append(path.as_str());
                s
            },
            LineCounterError::FileReadError { path } => {
                let mut s = String::from_str("无法读取文件: ");
                s.append(path.as_str());
                s
            },
            LineCounterError::IsDirectory { path } => {
                let mut s = String::from_str("文件是一个目录，不是文件: ");
                s.append(path.as_str());
                s
            },
            LineCounterError::PermissionDenied { path } => {
                let mut s = String::from_str("权限不足，无法访问文件: ");
                s.append(path.as_str());
                s
            },
            LineCounterError::FileTooLarge { path, size } => {
                let mut s = String::from_str("文件过大，无法处理: ");
                s.append(path.as_str());
                s.append(", 大小: ");
                let num = u64_to_decimal(*size);
                s.append(num.as_str());
                s.append(" bytes");
                s
            },
            LineCounterError::MissingArgument => String::from_str("缺少必需的文件路径参数"),
            LineCounterError::IoError(detail) => {
                let mut s = String::from_str("IO错误: ");
                s.append(detail.as_str());
                s
            },
        };
        proof {
            assert(r@ =~= self.spec_message());
        }
        r
    }
}

} // verus!
