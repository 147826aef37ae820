//! What is asked of a sandbox's files, and what is answered.

use crate::text::{concat, concat3};
use vstd::prelude::*;

verus! {

/// A file or directory.
#[derive(Debug, Clone, PartialEq, Eq)]
pub struct FsEntry {
    pub name: String,
    pub is_dir: bool,
    pub size: u64,
    pub mode: String,
    pub mtime: i64,
    pub is_symlink: bool,
}

/// A line that matched a search.
#[derive(Debug, Clone, PartialEq, Eq)]
pub struct FsMatch {
    pub path: String,
    pub line: u64,
    pub content: String,
}

/// What a replacement did in one file.
#[derive(Debug, Clone, PartialEq, Eq)]
pub struct FsSedFileResult {
    pub path: String,
    pub replacements: u64,
    pub success: bool,
    pub error: Option<String>,
}

/// An operation on a sandbox's files.
#[derive(Debug, Clone, PartialEq, Eq)]
pub enum FsOp {
    Ls { path: String },
    Stat { path: String },
    Rm { path: String, recursive: bool },
    Mv { src: String, dst: String, overwrite: bool },
    Grep {
        path: String,
        pattern: String,
        recursive: bool,
        ignore_case: bool,
        include_glob: Vec<String>,
        exclude_glob: Vec<String>,
        max_matches: u64,
        max_line_bytes: u64,
    },
    Sed {
        files: Vec<String>,
        path: Option<String>,
        recursive: bool,
        include_glob: Vec<String>,
        exclude_glob: Vec<String>,
        pattern: String,
        replacement: String,
        regex: bool,
        first_only: bool,
        ignore_case: bool,
    },
}

/// The answer to an operation.
#[derive(Debug, Clone, PartialEq, Eq)]
pub enum FsResult {
    Ls { entries: Vec<FsEntry> },
    Stat(FsEntry),
    Mkdir { created: bool },
    Rm { removed: bool },
    Chmod { updated: u64 },
    Mv { moved: bool },
    Grep { matches: Vec<FsMatch>, truncated: bool },
    Sed { results: Vec<FsSedFileResult>, total_replacements: u64 },
    Write { bytes_written: u64, path: String },
}

/// An answer, and how it prints for debugging.
#[derive(Debug, Clone, PartialEq, Eq)]
pub struct FsReply {
    pub result: FsResult,
    pub shown: String,
}

/// What is said of an answer to another question.
pub open spec fn unexpected_message(wanted: Seq<char>, shown: Seq<char>) -> Seq<char> {
    "expected "@ + wanted + " result, got "@ + shown
}

/// What is said of an answer to another question, given how it prints for
/// debugging.
pub fn unexpected(wanted: &str, shown: &str) -> (r: String)
    ensures
        r@ == unexpected_message(wanted@, shown@),
{
    concat(concat3("expected ", wanted, " result, got ").as_str(), shown)
}

} // verus!
