//! The validation pipeline that gates the counting stage.
//!
//! The caller observes the candidate path (does it exist, is it a
//! directory, how many bytes does it hold) and hands those plain facts
//! in; the functions here decide, in the mandatory order, whether
//! counting may begin, and classify the failure when it may not.

use vstd::prelude::*;
use vstd::string::StringExecFns;

use crate::error::LineCounterError;

verus! {

/// The largest file, in bytes, the tool will process: 100 MiB.
pub const MAX_FILE_SIZE: u64 = 100 * 1024 * 1024;

/// Existence check: a path that resolves to no entry is rejected.
pub fn validate_file_exists(exists: bool, path: &str) -> (r: Result<(), LineCounterError>)
    ensures
        r is Ok <==> exists,
        !exists ==> (r matches Err(LineCounterError::FileNotFound { path: p }) && p@ == path@),
{
    if !exists {
        Err(LineCounterError::FileNotFound { path: String::from_str(path) })
    } else {
        Ok(())
    }
}

/// Directory check: a path that resolves to a directory is rejected.
pub fn validate_not_directory(is_dir: bool, path: &str) -> (r: Result<(), LineCounterError>)
    ensures
        r is Ok <==> !is_dir,
        is_dir ==> (r matches Err(LineCounterError::IsDirectory { path: p }) && p@ == path@),
{
    if is_dir {
        Err(LineCounterError::IsDirectory { path: String::from_str(path) })
    } else {
        Ok(())
    }
}

/// Size check: a file longer than [`MAX_FILE_SIZE`] bytes is rejected.
/// On success the byte length is handed back for later display.
pub fn validate_file_size(size: u64, path: &str) -> (r: Result<u64, LineCounterError>)
    ensures
        r is Ok <==> size <= MAX_FILE_SIZE,
        size <= MAX_FILE_SIZE ==> r == Ok::<u64, LineCounterError>(size),
        size > MAX_FILE_SIZE ==> (r matches Err(LineCounterError::FileTooLarge { path: p, size: s })
            && p@ == path@ && s == size),
{
    if size > MAX_FILE_SIZE {
        Err(LineCounterError::FileTooLarge { path: String::from_str(path), size })
    } else {
        Ok(size)
    }
}

/// The whole validation pipeline in its mandatory order: existence,
/// then directory-ness, then size. The first failing check decides the
/// error; only a path that passes all three is cleared for counting.
pub fn validate_candidate(exists: bool, is_dir: bool, size: u64, path: &str) -> (r: Result<
    u64,
    LineCounterError,
>)
    ensures
        r is Ok <==> (exists && !is_dir && size <= MAX_FILE_SIZE),
        r is Ok ==> r == Ok::<u64, LineCounterError>(size),
        !exists ==> (r matches Err(LineCounterError::FileNotFound { path: p }) && p@ == path@),
        exists && is_dir ==> (r matches Err(LineCounterError::IsDirectory { path: p })
            && p@ == path@),
        exists && !is_dir && size > MAX_FILE_SIZE ==> (r matches Err(
            LineCounterError::FileTooLarge { path: p, size: s },
        ) && p@ == path@ && s == size),
{
    validate_file_exists(exists, path)?;
    validate_not_directory(is_dir, path)?;
    validate_file_size(size, path)
}

/// Classifies a failed attempt to open an already-validated file, from
/// the two causes the tool tells apart: the entry vanished, or access
/// was denied. Anything else counts as an unreadable file.
pub fn classify_open_failure(not_found: bool, permission_denied: bool, path: &str) -> (e:
    LineCounterError)
    ensures
        not_found ==> (e matches LineCounterError::FileNotFound { path: p } && p@ == path@),
        !not_found && permission_denied ==> (e matches LineCounterError::PermissionDenied {
            path: p,
        } && p@ == path@),
        !not_found && !permission_denied ==> (e matches LineCounterError::FileReadError { path: p }
            && p@ == path@),
{
    if not_found {
        LineCounterError::FileNotFound { path: String::from_str(path) }
    } else if permission_denied {
        LineCounterError::PermissionDenied { path: String::from_str(path) }
    } else {
        LineCounterError::FileReadError { path: String::from_str(path) }
    }
}

} // verus!
