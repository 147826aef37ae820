//! What a sandbox call fails with.

use crate::numbers::{decimal, u64_text};
use vstd::prelude::*;

verus! {

/// Why a sandbox call failed.
#[derive(Debug, Clone, PartialEq, Eq)]
pub enum SandboxError {
    /// The request is malformed.
    InvalidRequest(String),
    /// There is no sandbox of this id.
    NotFound(String),
    /// The sandbox of this id runs another command.
    ConcurrentExec(String),
    /// The sandbox of this id is stopped.
    AlreadyStopped(String),
    /// The image may not be booted.
    ImageNotAllowed { image: String },
    /// The image is not on this machine, and may not be fetched.
    RootfsMissing { image: String },
    /// The command did not end in time.
    ExecTimedOut { timeout_ms: u64 },
    /// The file request is malformed.
    FsInvalidRequest(String),
    /// There is no such file.
    FsNotFound { path: String },
    /// The file is of another type than the request needs.
    FsWrongType { path: String },
    /// The file exists already.
    FsAlreadyExists { path: String },
    /// The directory is not empty.
    FsNotEmpty { path: String },
    /// The file may not be accessed.
    FsPermission(String),
    /// Another file error.
    FsIo(String),
    /// The stream of a file's contents ended early.
    FsChannelAborted(String),
    /// The VM could not be booted or reached.
    BootFailed(String),
    /// A limit on resources is reached.
    ResourceLimit(String),
}

/// The stable code of a failure.
#[derive(Debug, Clone, Copy, PartialEq, Eq)]
pub enum SandboxErrorCode {
    S001,
    S002,
    S003,
    S004,
    S100,
    S101,
    S200,
    S210,
    S211,
    S212,
    S213,
    S214,
    S215,
    S216,
    S218,
    S300,
    S400,
}

impl SandboxErrorCode {
    /// The code as text.
    pub open spec fn text(self) -> Seq<char> {
        match self {
            SandboxErrorCode::S001 => "S001"@,
            SandboxErrorCode::S002 => "S002"@,
            SandboxErrorCode::S003 => "S003"@,
            SandboxErrorCode::S004 => "S004"@,
            SandboxErrorCode::S100 => "S100"@,
            SandboxErrorCode::S101 => "S101"@,
            SandboxErrorCode::S200 => "S200"@,
            SandboxErrorCode::S210 => "S210"@,
            SandboxErrorCode::S211 => "S211"@,
            SandboxErrorCode::S212 => "S212"@,
            SandboxErrorCode::S213 => "S213"@,
            SandboxErrorCode::S214 => "S214"@,
            SandboxErrorCode::S215 => "S215"@,
            SandboxErrorCode::S216 => "S216"@,
            SandboxErrorCode::S218 => "S218"@,
            SandboxErrorCode::S300 => "S300"@,
            SandboxErrorCode::S400 => "S400"@,
        }
    }

    /// The code as text.
    pub fn as_str(self) -> (r: &'static str)
        ensures
            r@ == self.text(),
    {
        match self {
            SandboxErrorCode::S001 => "S001",
            SandboxErrorCode::S002 => "S002",
            SandboxErrorCode::S003 => "S003",
            SandboxErrorCode::S004 => "S004",
            SandboxErrorCode::S100 => "S100",
            SandboxErrorCode::S101 => "S101",
            SandboxErrorCode::S200 => "S200",
            SandboxErrorCode::S210 => "S210",
            SandboxErrorCode::S211 => "S211",
            SandboxErrorCode::S212 => "S212",
            SandboxErrorCode::S213 => "S213",
            SandboxErrorCode::S214 => "S214",
            SandboxErrorCode::S215 => "S215",
            SandboxErrorCode::S216 => "S216",
            SandboxErrorCode::S218 => "S218",
            SandboxErrorCode::S300 => "S300",
            SandboxErrorCode::S400 => "S400",
        }
    }
}

impl SandboxError {
    /// The code of this failure.
    pub open spec fn code_spec(self) -> SandboxErrorCode {
        match self {
            SandboxError::InvalidRequest(_) => SandboxErrorCode::S001,
            SandboxError::NotFound(_) => SandboxErrorCode::S002,
            SandboxError::ConcurrentExec(_) => SandboxErrorCode::S003,
            SandboxError::AlreadyStopped(_) => SandboxErrorCode::S004,
            SandboxError::ImageNotAllowed { .. } => SandboxErrorCode::S100,
            SandboxError::RootfsMissing { .. } => SandboxErrorCode::S101,
            SandboxError::ExecTimedOut { .. } => SandboxErrorCode::S200,
            SandboxError::FsInvalidRequest(_) => SandboxErrorCode::S210,
            SandboxError::FsNotFound { .. } => SandboxErrorCode::S211,
            SandboxError::FsWrongType { .. } => SandboxErrorCode::S212,
            SandboxError::FsAlreadyExists { .. } => SandboxErrorCode::S213,
            SandboxError::FsNotEmpty { .. } => SandboxErrorCode::S214,
            SandboxError::FsPermission(_) => SandboxErrorCode::S215,
            SandboxError::FsIo(_) => SandboxErrorCode::S216,
            SandboxError::FsChannelAborted(_) => SandboxErrorCode::S218,
            SandboxError::BootFailed(_) => SandboxErrorCode::S300,
            SandboxError::ResourceLimit(_) => SandboxErrorCode::S400,
        }
    }

    /// The code of this failure.
    pub fn code(&self) -> (r: SandboxErrorCode)
        ensures
            r == self.code_spec(),
    {
        match self {
            SandboxError::InvalidRequest(_) => SandboxErrorCode::S001,
            SandboxError::NotFound(_) => SandboxErrorCode::S002,
            SandboxError::ConcurrentExec(_) => SandboxErrorCode::S003,
            SandboxError::AlreadyStopped(_) => SandboxErrorCode::S004,
            SandboxError::ImageNotAllowed { .. } => SandboxErrorCode::S100,
            SandboxError::RootfsMissing { .. } => SandboxErrorCode::S101,
            SandboxError::ExecTimedOut { .. } => SandboxErrorCode::S200,
            SandboxError::FsInvalidRequest(_) => SandboxErrorCode::S210,
            SandboxError::FsNotFound { .. } => SandboxErrorCode::S211,
            SandboxError::FsWrongType { .. } => SandboxErrorCode::S212,
            SandboxError::FsAlreadyExists { .. } => SandboxErrorCode::S213,
            SandboxError::FsNotEmpty { .. } => SandboxErrorCode::S214,
            SandboxError::FsPermission(_) => SandboxErrorCode::S215,
            SandboxError::FsIo(_) => SandboxErrorCode::S216,
            SandboxError::FsChannelAborted(_) => SandboxErrorCode::S218,
            SandboxError::BootFailed(_) => SandboxErrorCode::S300,
            SandboxError::ResourceLimit(_) => SandboxErrorCode::S400,
        }
    }

    /// What the failure carries, as text.
    pub open spec fn detail_spec(self) -> Seq<char> {
        match self {
            SandboxError::InvalidRequest(m) => m@,
            SandboxError::NotFound(id) => id@,
            SandboxError::ConcurrentExec(id) => id@,
            SandboxError::AlreadyStopped(id) => id@,
            SandboxError::ImageNotAllowed { image } => image@,
            SandboxError::RootfsMissing { image } => image@,
            SandboxError::ExecTimedOut { timeout_ms } => decimal(timeout_ms as nat),
            SandboxError::FsInvalidRequest(m) => m@,
            SandboxError::FsNotFound { path } => path@,
            SandboxError::FsWrongType { path } => path@,
            SandboxError::FsAlreadyExists { path } => path@,
            SandboxError::FsNotEmpty { path } => path@,
            SandboxError::FsPermission(m) => m@,
            SandboxError::FsIo(m) => m@,
            SandboxError::FsChannelAborted(m) => m@,
            SandboxError::BootFailed(m) => m@,
            SandboxError::ResourceLimit(m) => m@,
        }
    }

    /// What the failure carries, as text: the message, or what the failure is
    /// about.
    pub fn detail(&self) -> (r: String)
        ensures
            r@ == self.detail_spec(),
    {
        match self {
            SandboxError::InvalidRequest(m) => m.clone(),
            SandboxError::NotFound(id) => id.clone(),
            SandboxError::ConcurrentExec(id) => id.clone(),
            SandboxError::AlreadyStopped(id) => id.clone(),
            SandboxError::ImageNotAllowed { image } => image.clone(),
            SandboxError::RootfsMissing { image } => image.clone(),
            SandboxError::ExecTimedOut { timeout_ms } => u64_text(*timeout_ms),
            SandboxError::FsInvalidRequest(m) => m.clone(),
            SandboxError::FsNotFound { path } => path.clone(),
            SandboxError::FsWrongType { path } => path.clone(),
            SandboxError::FsAlreadyExists { path } => path.clone(),
            SandboxError::FsNotEmpty { path } => path.clone(),
            SandboxError::FsPermission(m) => m.clone(),
            SandboxError::FsIo(m) => m.clone(),
            SandboxError::FsChannelAborted(m) => m.clone(),
            SandboxError::BootFailed(m) => m.clone(),
            SandboxError::ResourceLimit(m) => m.clone(),
        }
    }
}

/// `r` fails with the code `code` and the text `detail`.
pub open spec fn fails<T>(
    r: Result<T, SandboxError>,
    code: SandboxErrorCode,
    detail: Seq<char>,
) -> bool {
    match r {
        Ok(_) => false,
        Err(e) => e.code_spec() == code && e.detail_spec() == detail,
    }
}

/// Two failures with the same code are of the same kind.
pub proof fn code_tells_kind(a: SandboxError, b: SandboxError)
    requires
        a.code_spec() == b.code_spec(),
    ensures
        a is InvalidRequest == b is InvalidRequest,
        a is NotFound == b is NotFound,
        a is ConcurrentExec == b is ConcurrentExec,
        a is AlreadyStopped == b is AlreadyStopped,
        a is ImageNotAllowed == b is ImageNotAllowed,
        a is RootfsMissing == b is RootfsMissing,
        a is ExecTimedOut == b is ExecTimedOut,
        a is FsInvalidRequest == b is FsInvalidRequest,
        a is FsNotFound == b is FsNotFound,
        a is FsWrongType == b is FsWrongType,
        a is FsAlreadyExists == b is FsAlreadyExists,
        a is FsNotEmpty == b is FsNotEmpty,
        a is FsPermission == b is FsPermission,
        a is FsIo == b is FsIo,
        a is FsChannelAborted == b is FsChannelAborted,
        a is BootFailed == b is BootFailed,
        a is ResourceLimit == b is ResourceLimit,
{
}

} // verus!
