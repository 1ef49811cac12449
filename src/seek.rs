//! Seek targets and their native form.
use vstd::prelude::*;
use crate::convert::{out_of_range, to};
use crate::errors::{Error, ErrorTask};

verus! {

/// Where a seek goes: a byte offset from the start, from the current
/// position, or from the end of the file.
#[derive(Debug, Clone, Copy, PartialEq, Eq, Structural)]
pub enum SeekTarget {
    Start(u64),
    Current(i64),
    End(i64),
}

/// The native reference point: the start of the file.
pub const WHENCE_START: i32 = 0;

/// The native reference point: the current position.
pub const WHENCE_CURRENT: i32 = 1;

/// The native reference point: the end of the file.
pub const WHENCE_END: i32 = 2;

/// The native (offset, whence) pair of a seek target. An offset from the
/// start that does not fit the native signed offset is refused.
pub fn seek_request(target: SeekTarget) -> (r: Result<(i64, i32), Error>)
    ensures
        target matches SeekTarget::Start(u) ==> (u <= i64::MAX ==> r == Ok::<(i64, i32), Error>(
            (u as i64, WHENCE_START),
        )),
        target matches SeekTarget::Start(u) ==> (u > i64::MAX ==> (r matches Err(e) && out_of_range::<
            i64,
        >(e, "position", u as int, ErrorTask::Seek))),
        target matches SeekTarget::Current(i) ==> r == Ok::<(i64, i32), Error>((i, WHENCE_CURRENT)),
        target matches SeekTarget::End(i) ==> r == Ok::<(i64, i32), Error>((i, WHENCE_END)),
{
    match target {
        SeekTarget::Start(position) => match to(position, ErrorTask::Seek, "position") {
            Ok(offset) => Ok((offset, WHENCE_START)),
            Err(e) => Err(e),
        },
        SeekTarget::Current(offset) => Ok((offset, WHENCE_CURRENT)),
        SeekTarget::End(offset) => Ok((offset, WHENCE_END)),
    }
}

} // verus!
