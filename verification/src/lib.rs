//! A small library for classifying the lines of a text file.
//!
//! The library has two halves. The validator decides, from a candidate
//! path's observed properties, whether the file may be read at all:
//! it must exist, must not be a directory, and must not exceed
//! [`validate::MAX_FILE_SIZE`] bytes. The counter takes the file's text
//! and classifies every line as empty (only whitespace) or non-empty,
//! producing a [`stats::LineStats`] whose counts always satisfy
//! `total_lines == non_empty_lines + empty_lines`.
//!
//! Reading the file, printing the report and the process exit code are
//! left to the calling program; every function here works on plain
//! values and carries a full contract.

pub mod count;
pub mod decimal;
pub mod error;
pub mod report;
pub mod stats;
pub mod validate;
