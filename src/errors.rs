//! The failure taxonomy and the mapping of native status codes onto it.
use vstd::prelude::*;

verus! {

/// A status code of the native codec.
#[derive(Debug, Clone, Copy, PartialEq, Eq, Structural)]
pub enum ErrorCode {
    ExdrOk,
    ExdrHeader,
    ExdrString,
    ExdrDouble,
    ExdrInt,
    ExdrFloat,
    ExdrUint,
    Exdr3dx,
    ExdrClose,
    ExdrMagic,
    ExdrNoMem,
    ExdrEndOfFile,
    ExdrFileNotFound,
    /// A code the codec does not document.
    UnmatchedCode(i32),
}

/// The code that the native integer `c` stands for.
pub open spec fn code_of(c: i32) -> ErrorCode {
    if c == 0 {
        ErrorCode::ExdrOk
    } else if c == 1 {
        ErrorCode::ExdrHeader
    } else if c == 2 {
        ErrorCode::ExdrString
    } else if c == 3 {
        ErrorCode::ExdrDouble
    } else if c == 4 {
        ErrorCode::ExdrInt
    } else if c == 5 {
        ErrorCode::ExdrFloat
    } else if c == 6 {
        ErrorCode::ExdrUint
    } else if c == 7 {
        ErrorCode::Exdr3dx
    } else if c == 8 {
        ErrorCode::ExdrClose
    } else if c == 9 {
        ErrorCode::ExdrMagic
    } else if c == 10 {
        ErrorCode::ExdrNoMem
    } else if c == 11 {
        ErrorCode::ExdrEndOfFile
    } else if c == 12 {
        ErrorCode::ExdrFileNotFound
    } else {
        ErrorCode::UnmatchedCode(c)
    }
}

impl From<i32> for ErrorCode {
    fn from(c: i32) -> (r: ErrorCode)
        ensures
            r == code_of(c),
    {
        match c {
            0 => ErrorCode::ExdrOk,
            1 => ErrorCode::ExdrHeader,
            2 => ErrorCode::ExdrString,
            3 => ErrorCode::ExdrDouble,
            4 => ErrorCode::ExdrInt,
            5 => ErrorCode::ExdrFloat,
            6 => ErrorCode::ExdrUint,
            7 => ErrorCode::Exdr3dx,
            8 => ErrorCode::ExdrClose,
            9 => ErrorCode::ExdrMagic,
            10 => ErrorCode::ExdrNoMem,
            11 => ErrorCode::ExdrEndOfFile,
            12 => ErrorCode::ExdrFileNotFound,
            _ => ErrorCode::UnmatchedCode(c),
        }
    }
}

impl vstd::std_specs::convert::FromSpecImpl<i32> for ErrorCode {
    open spec fn obeys_from_spec() -> bool {
        true
    }

    open spec fn from_spec(c: i32) -> ErrorCode {
        code_of(c)
    }
}

/// The operation during which an error came up.
#[derive(Debug, Clone, Copy, PartialEq, Eq, Structural)]
pub enum ErrorTask {
    Read,
    Write,
    Seek,
    Flush,
    ReadNumAtoms,
}

/// Everything that can go wrong around a trajectory file.
#[derive(Debug, PartialEq)]
pub enum Error {
    /// The native layer could not open `path` in `mode`; it gives no cause.
    CouldNotOpen { path: String, mode: crate::mode::FileMode },
    /// The path has no native string form: `None` when it is not text,
    /// `Some(i)` when byte `i` is an embedded terminator.
    InvalidOsStr(Option<usize>),
    /// The frame holds `found` coordinates where the file has `expected` atoms.
    WrongSizeFrame { expected: usize, found: usize },
    /// `value` (the decimal text of field `name`) does not fit the native
    /// integer type `target` that `task` needs.
    OutOfRange { name: &'static str, value: String, target: &'static str, task: ErrorTask },
    /// The native codec reported `code` during `task`.
    CApiError { code: ErrorCode, task: ErrorTask },
    /// The atom count, needed before a read, could not be established.
    CouldNotCheckNAtoms(Box<Error>),
}

impl Clone for Error {
    fn clone(&self) -> (r: Error)
        ensures
            r == *self,
        decreases self,
    {
        match self {
            Error::CouldNotOpen { path, mode } => Error::CouldNotOpen { path: path.clone(), mode: *mode },
            Error::InvalidOsStr(at) => Error::InvalidOsStr(*at),
            Error::WrongSizeFrame { expected, found } => Error::WrongSizeFrame { expected: *expected, found: *found },
            Error::OutOfRange { name, value, target, task } => Error::OutOfRange {
                name: *name,
                value: value.clone(),
                target: *target,
                task: *task,
            },
            Error::CApiError { code, task } => Error::CApiError { code: *code, task: *task },
            Error::CouldNotCheckNAtoms(inner) => Error::CouldNotCheckNAtoms(Box::new((**inner).clone())),
        }
    }
}

/// The error that a non-zero native status stands for.
pub open spec fn status_error(code: ErrorCode, task: ErrorTask) -> Error {
    Error::CApiError { code, task }
}

/// Maps a native status: `None` for success, otherwise the error.
pub fn check_code(code: ErrorCode, task: ErrorTask) -> (r: Option<Error>)
    ensures
        code == ErrorCode::ExdrOk <==> r is None,
        code != ErrorCode::ExdrOk ==> r == Some(status_error(code, task)),
{
    if let ErrorCode::ExdrOk = code {
        None
    } else {
        Some(Error::CApiError { code, task })
    }
}

/// A failed native read is the end of the file exactly when the codec
/// reported its end-of-file status; every other non-zero status (a bad magic
/// number, a truncated record, an I/O failure) is a genuine error.
pub proof fn lemma_eof_only_from_eof_status(status: i32, task: ErrorTask)
    requires
        status != 0,
    ensures
        code_of(status) != ErrorCode::ExdrOk,
        status_error(code_of(status), task).spec_is_eof() <==> code_of(status) == ErrorCode::ExdrEndOfFile,
        status_error(code_of(status), task).spec_is_eof() <==> status == 11,
{
}

/// The native code carried by an error, looking through a failed atom-count check.
pub open spec fn error_code(e: Error) -> Option<ErrorCode>
    decreases e,
{
    match e {
        Error::CApiError { code, .. } => Some(code),
        Error::CouldNotCheckNAtoms(inner) => error_code(*inner),
        _ => None,
    }
}

impl Error {
    /// Whether this is the end of the file: the normal end of a trajectory.
    pub open spec fn spec_is_eof(&self) -> bool {
        error_code(*self) == Some(ErrorCode::ExdrEndOfFile)
    }

    /// Whether this is the end of the file: the normal end of a trajectory.
    pub fn is_eof(&self) -> (r: bool)
        ensures
            r == self.spec_is_eof(),
    {
        match self.code() {
            Some(ErrorCode::ExdrEndOfFile) => true,
            _ => false,
        }
    }

    /// The native code behind this error, if the native layer reported one.
    pub fn code(&self) -> (r: Option<ErrorCode>)
        ensures
            r == error_code(*self),
        decreases self,
    {
        match self {
            Error::CApiError { code, .. } => Some(*code),
            Error::CouldNotCheckNAtoms(inner) => inner.code(),
            _ => None,
        }
    }
}

} // verus!
