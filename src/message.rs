//! Human-readable text of errors.
use vstd::prelude::*;
use crate::errors::{Error, ErrorCode, ErrorTask};
use crate::mode::FileMode;
use crate::text::{append_decimal, decimal};

verus! {

/// How a task reads inside "... while <task> trajectory".
pub open spec fn task_text(t: ErrorTask) -> Seq<char> {
    match t {
        ErrorTask::Read => "reading"@,
        ErrorTask::Write => "writing"@,
        ErrorTask::Seek => "seeking in"@,
        ErrorTask::Flush => "flushing"@,
        ErrorTask::ReadNumAtoms => "reading the atom count of"@,
    }
}

/// The name of a file mode.
pub open spec fn mode_text(m: FileMode) -> Seq<char> {
    match m {
        FileMode::Write => "Write"@,
        FileMode::Append => "Append"@,
        FileMode::Read => "Read"@,
    }
}

/// What a native status code means.
pub open spec fn code_text(c: ErrorCode) -> Seq<char> {
    match c {
        ErrorCode::ExdrOk => "no error"@,
        ErrorCode::ExdrHeader => "bad header"@,
        ErrorCode::ExdrString => "bad string"@,
        ErrorCode::ExdrDouble => "bad double"@,
        ErrorCode::ExdrInt => "bad integer"@,
        ErrorCode::ExdrFloat => "bad float"@,
        ErrorCode::ExdrUint => "bad unsigned integer"@,
        ErrorCode::Exdr3dx => "bad compressed coordinates"@,
        ErrorCode::ExdrClose => "could not close the file"@,
        ErrorCode::ExdrMagic => "bad magic number"@,
        ErrorCode::ExdrNoMem => "out of memory"@,
        ErrorCode::ExdrEndOfFile => "end of file"@,
        ErrorCode::ExdrFileNotFound => "file not found"@,
        ErrorCode::UnmatchedCode(n) => "unknown code "@ + decimal(n as int),
    }
}

/// The text of an error.
pub open spec fn message_of(e: Error) -> Seq<char>
    decreases e,
{
    match e {
        Error::CouldNotOpen { path, mode } => "Could not open file at "@ + path@ + " in mode "@ + mode_text(
            mode,
        ),
        Error::InvalidOsStr(None) => "Invalid path: it is not valid text"@,
        Error::InvalidOsStr(Some(i)) => "Invalid path: zero byte at position "@ + decimal(i as int),
        Error::WrongSizeFrame { expected, found } => "Wrong frame size: expected "@ + decimal(
            expected as int,
        ) + " atoms, found "@ + decimal(found as int),
        Error::OutOfRange { name, value, target, task } => "Illegal "@ + name@ + " while "@ + task_text(
            task,
        ) + " trajectory: Failed to cast "@ + value@ + " to "@ + target@,
        Error::CApiError { code, task } => "Native error while "@ + task_text(task) + " trajectory: "@
            + code_text(code),
        Error::CouldNotCheckNAtoms(inner) => "Could not check the number of atoms: "@ + message_of(*inner),
    }
}

fn append_task(s: &mut String, t: ErrorTask)
    ensures
        final(s)@ == old(s)@ + task_text(t),
{
    match t {
        ErrorTask::Read => s.append("reading"),
        ErrorTask::Write => s.append("writing"),
        ErrorTask::Seek => s.append("seeking in"),
        ErrorTask::Flush => s.append("flushing"),
        ErrorTask::ReadNumAtoms => s.append("reading the atom count of"),
    }
}

fn append_code(s: &mut String, c: ErrorCode)
    ensures
        final(s)@ == old(s)@ + code_text(c),
{
    match c {
        ErrorCode::ExdrOk => s.append("no error"),
        ErrorCode::ExdrHeader => s.append("bad header"),
        ErrorCode::ExdrString => s.append("bad string"),
        ErrorCode::ExdrDouble => s.append("bad double"),
        ErrorCode::ExdrInt => s.append("bad integer"),
        ErrorCode::ExdrFloat => s.append("bad float"),
        ErrorCode::ExdrUint => s.append("bad unsigned integer"),
        ErrorCode::Exdr3dx => s.append("bad compressed coordinates"),
        ErrorCode::ExdrClose => s.append("could not close the file"),
        ErrorCode::ExdrMagic => s.append("bad magic number"),
        ErrorCode::ExdrNoMem => s.append("out of memory"),
        ErrorCode::ExdrEndOfFile => s.append("end of file"),
        ErrorCode::ExdrFileNotFound => s.append("file not found"),
        ErrorCode::UnmatchedCode(n) => {
            s.append("unknown code ");
            append_decimal(s, n as i128);
            assert(final(s)@ =~= old(s)@ + code_text(c));
        },
    }
}

impl Error {
    /// Appends the text of this error to `s`.
    fn append_message(&self, s: &mut String)
        ensures
            final(s)@ == old(s)@ + message_of(*self),
        decreases self,
    {
        let ghost s0 = s@;
        match self {
            Error::CouldNotOpen { path, mode } => {
                s.append("Could not open file at ");
                s.append(path.as_str());
                s.append(" in mode ");
                match mode {
                    FileMode::Write => s.append("Write"),
                    FileMode::Append => s.append("Append"),
                    FileMode::Read => s.append("Read"),
                }
            },
            Error::InvalidOsStr(None) => s.append("Invalid path: it is not valid text"),
            Error::InvalidOsStr(Some(i)) => {
                s.append("Invalid path: zero byte at position ");
                append_decimal(s, *i as i128);
            },
            Error::WrongSizeFrame { expected, found } => {
                s.append("Wrong frame size: expected ");
                append_decimal(s, *expected as i128);
                s.append(" atoms, found ");
                append_decimal(s, *found as i128);
            },
            Error::OutOfRange { name, value, target, task } => {
                s.append("Illegal ");
                s.append(name);
                s.append(" while ");
                append_task(s, *task);
                s.append(" trajectory: Failed to cast ");
                s.append(value.as_str());
                s.append(" to ");
                s.append(target);
            },
            Error::CApiError { code, task } => {
                s.append("Native error while ");
                append_task(s, *task);
                s.append(" trajectory: ");
                append_code(s, *code);
            },
            Error::CouldNotCheckNAtoms(inner) => {
                s.append("Could not check the number of atoms: ");
                (**inner).append_message(s);
            },
        }
        assert(s@ =~= s0 + message_of(*self));
    }

    /// The text of this error.
    pub fn message(&self) -> (r: String)
        ensures
            r@ == message_of(*self),
    {
        let mut s = String::new();
        self.append_message(&mut s);
        assert(s@ =~= message_of(*self));
        s
    }
}

} // verus!
