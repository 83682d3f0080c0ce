//! The error kinds an initialization can end with, each with the message it
//! renders and the process exit code it maps to.

use vstd::prelude::*;
use vstd::string::StringExecFns;

use crate::path::{path_display, ProjectPath};

verus! {

/// Exit code for a failure outside the named kinds.
pub const SOFTWARE: i32 = 70;

/// Exit code when an input file is missing or unreadable.
pub const NOINPUT: i32 = 66;

/// Exit code when a directory or file cannot be created.
pub const CANTCREAT: i32 = 73;

/// Exit code for a generic I/O failure.
pub const IOERR: i32 = 74;

/// Exit code when permission was denied.
pub const NOPERM: i32 = 77;

/// Exit code when a configuration file is invalid.
pub const CONFIG: i32 = 78;

/// What went wrong during initialization; each variant carries the path it
/// is about.
#[derive(Debug)]
pub enum Error {
    /// The config file at the path does not parse.
    Config(ProjectPath),
    /// A directory could not be created.
    CreateDir(ProjectPath),
    /// A project file could not be created.
    CreateFile(ProjectPath),
    /// The target path already exists.
    Conflict(ProjectPath),
    /// The path could not be normalized.
    Normalize(ProjectPath),
    /// A file could not be read.
    ReadFile(ProjectPath),
    /// A file could not be written.
    WriteFile(ProjectPath),
    /// No package name can be derived from the path.
    Naming(ProjectPath),
}

/// The categories of I/O failure that map to distinct exit codes.
#[derive(Clone, Copy, PartialEq, Eq, Structural, Debug)]
pub enum IoKind {
    NotFound,
    PermissionDenied,
    AlreadyExists,
    Other,
}

/// The single-line message each error renders.
pub open spec fn error_message(e: &Error) -> Seq<char> {
    match e {
        Error::Config(p) => "invalid config file: `"@ + path_display(p@) + "`"@,
        Error::CreateDir(p) => "unable to create directory: `"@ + path_display(p@) + "`"@,
        Error::CreateFile(p) => "unable to create project file: `"@ + path_display(p@) + "`"@,
        Error::Conflict(p) => "`"@ + path_display(p@) + "` already exists"@,
        Error::Normalize(p) => "unable to normalize path: `"@ + path_display(p@) + "`"@,
        Error::ReadFile(p) => "unable to read file: `"@ + path_display(p@) + "`"@,
        Error::WriteFile(p) => "cannot write to file: `"@ + path_display(p@) + "`"@,
        Error::Naming(p) => "cannot determine package name from path: `"@ + path_display(p@)
            + "`"@,
    }
}

/// The exit code each error maps to.
pub open spec fn spec_exit_code(e: &Error) -> i32 {
    match e {
        Error::Conflict(_) => CANTCREAT,
        Error::CreateDir(_) => CANTCREAT,
        Error::Normalize(_) => CANTCREAT,
        Error::CreateFile(_) => CANTCREAT,
        Error::WriteFile(_) => IOERR,
        Error::ReadFile(_) => NOINPUT,
        Error::Config(_) => CONFIG,
        Error::Naming(_) => SOFTWARE,
    }
}

/// The exit code each I/O failure category maps to.
pub open spec fn spec_io_exit_code(kind: IoKind) -> i32 {
    match kind {
        IoKind::NotFound => NOINPUT,
        IoKind::PermissionDenied => NOPERM,
        IoKind::AlreadyExists => CANTCREAT,
        IoKind::Other => IOERR,
    }
}

impl Error {
    /// The path the error is about.
    pub fn path(&self) -> (r: &ProjectPath)
        ensures
            match self {
                Error::Config(p) => r@ == p@,
                Error::CreateDir(p) => r@ == p@,
                Error::CreateFile(p) => r@ == p@,
                Error::Conflict(p) => r@ == p@,
                Error::Normalize(p) => r@ == p@,
                Error::ReadFile(p) => r@ == p@,
                Error::WriteFile(p) => r@ == p@,
                Error::Naming(p) => r@ == p@,
            },
    {
        match self {
            Error::Config(p) => p,
            Error::CreateDir(p) => p,
            Error::CreateFile(p) => p,
            Error::Conflict(p) => p,
            Error::Normalize(p) => p,
            Error::ReadFile(p) => p,
            Error::WriteFile(p) => p,
            Error::Naming(p) => p,
        }
    }

    /// Renders the single-line error message.
    pub fn message(&self) -> (r: String)
        ensures
            r@ == error_message(self),
    {
        match self {
            Error::Config(p) => {
                let mut r = String::from_str("invalid config file: `");
                r.append(p.display().as_str());
                r.append("`");
                r
            },
            Error::CreateDir(p) => {
                let mut r = String::from_str("unable to create directory: `");
                r.append(p.display().as_str());
                r.append("`");
                r
            },
            Error::CreateFile(p) => {
                let mut r = String::from_str("unable to create project file: `");
                r.append(p.display().as_str());
                r.append("`");
                r
            },
            Error::Conflict(p) => {
                let mut r = String::from_str("`");
                r.append(p.display().as_str());
                r.append("` already exists");
                r
            },
            Error::Normalize(p) => {
                let mut r = String::from_str("unable to normalize path: `");
                r.append(p.display().as_str());
                r.append("`");
                r
            },
            Error::ReadFile(p) => {
                let mut r = String::from_str("unable to read file: `");
                r.append(p.display().as_str());
                r.append("`");
                r
            },
            Error::WriteFile(p) => {
                let mut r = String::from_str("cannot write to file: `");
                r.append(p.display().as_str());
                r.append("`");
                r
            },
            Error::Naming(p) => {
                let mut r = String::from_str("cannot determine package name from path: `");
                r.append(p.display().as_str());
                r.append("`");
                r
            },
        }
    }

    /// Whether reporting the error must always include the full cause chain:
    /// an invalid config file is not actionable without the detail of what
    /// went wrong inside it.
    pub fn forces_verbose(&self) -> (r: bool)
        ensures
            r == (self matches Error::Config(_)),
    {
        matches!(self, Error::Config(_))
    }

    /// The process exit code the error maps to.
    pub fn exit_code(&self) -> (r: i32)
        ensures
            r == spec_exit_code(self),
    {
        match self {
            Error::Conflict(_) => CANTCREAT,
            Error::CreateDir(_) => CANTCREAT,
            Error::Normalize(_) => CANTCREAT,
            Error::CreateFile(_) => CANTCREAT,
            Error::WriteFile(_) => IOERR,
            Error::ReadFile(_) => NOINPUT,
            Error::Config(_) => CONFIG,
            Error::Naming(_) => SOFTWARE,
        }
    }
}

/// The process exit code an I/O failure of the given category maps to.
pub fn io_exit_code(kind: IoKind) -> (r: i32)
    ensures
        r == spec_io_exit_code(kind),
{
    match kind {
        IoKind::NotFound => NOINPUT,
        IoKind::PermissionDenied => NOPERM,
        IoKind::AlreadyExists => CANTCREAT,
        IoKind::Other => IOERR,
    }
}

} // verus!
