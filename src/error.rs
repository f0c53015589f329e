use vstd::prelude::*;

verus! {

/// What a file handler can be asked to do.
#[derive(Clone, Copy, Debug, PartialEq, Eq, Structural)]
pub enum Capability {
    Read,
    Write,
    Delete,
}

impl Capability {
    pub fn name(&self) -> (r: &'static str)
        ensures
            r@ == match *self {
                Capability::Read => "read"@,
                Capability::Write => "write"@,
                Capability::Delete => "delete"@,
            },
    {
        match self {
            Capability::Read => "read",
            Capability::Write => "write",
            Capability::Delete => "delete",
        }
    }
}

/// Failures of a file handler that the core reports as they are.
#[derive(Clone, Debug, PartialEq, Eq)]
pub enum FileError {
    NotCapable(Capability),
}

/// The error taxonomy of the administration core.
#[derive(Clone, Debug, PartialEq, Eq)]
pub enum Erro {
    SystemDetection,
    OsDetection,
    EndpointIncompatible,
    RunUserUnsupported(String),
    ReadUserUnsupported(String),
    ReadSshUnsupported(String),
    WriteUserUnsupported(String),
    WriteSshUnsupported(String),
    DeleteUserUnsupported(String),
    DeleteSshUnsupported(String),
    RunUserUserInvalid,
    RunUserPasswordInvalid,
    RunUserStdin,
    RunUser(u32, String),
    RunSsh(u32, String),
    EndpointMissing,
    OsDetectionFailed,
    AppIncompatible,
    AppNotFound,
    TaskNotFound,
    TaskInvalidIndex,
    DirFileSizeUnknown,
    LsLineInvalid,
    FileTypeUnsupported,
    PathExistUnsupported,
    FileTypeUnknown(String),
    FilesNotMatched,
    FilesNotMatchedByName(String),
    FilesNotMatchedByPattern(String),
    AuthTokenExpired,
    AuthNotFound,
    Deserialize(String),
    File(FileError),
    Version(VersionError),
    OsRelease(OsReleaseError),
    Passwd(PasswdError),
    Uname(UnameError),
    ParseInt,
    Io(String),
    FromUtf8(String),
}

/// Why kernel version text could not be read.
#[derive(Clone, Copy, Debug, PartialEq, Eq, Structural)]
pub enum VersionError {
    Version,
    CompiledBy,
    CompilerHost,
    Compiler,
}

/// Why `uname -a` output could not be read.
#[derive(Clone, Copy, Debug, PartialEq, Eq, Structural)]
pub enum UnameError {
    ParseLeft,
    ParseRight,
}

/// Why an os-release text could not be read.
#[derive(Clone, Copy, Debug, PartialEq, Eq, Structural)]
pub enum OsReleaseError {
    Name,
    Id,
}

/// Why an edit of the passwd table was refused.
#[derive(Clone, Debug, PartialEq, Eq)]
pub enum PasswdError {
    UserAlreadyExist(String),
    UserNotFound(String),
    NoNewEntries,
    FieldMissing,
}

} // verus!
