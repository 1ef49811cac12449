//! Safe, resource-managed access to molecular-dynamics trajectories in the
//! compressed (xtc) and full-precision (trr) xdr formats.
//!
//! The byte-level codec is a native collaborator: this library decides
//! everything around it. It maps native status codes onto a typed
//! error taxonomy, narrows and widens integers at the native boundary without
//! ever truncating, memoizes the per-file atom count, rejects mis-sized frames
//! before any native call, and drives a buffer-reusing frame iterator.
use vstd::prelude::*;

pub mod convert;
pub mod errors;
pub mod frame;
pub mod iter;
pub mod message;
pub mod mode;
pub mod seek;
pub mod text;
pub mod trajectory;

pub use convert::{to, NativeInt};
pub use errors::{check_code, Error, ErrorCode, ErrorTask};
pub use frame::Frame;
pub use iter::{buffer_len, next_buffer, yielded, FrameIter};
pub use mode::{path_to_cstring, FileMode};
pub use seek::{seek_request, SeekTarget, WHENCE_CURRENT, WHENCE_END, WHENCE_START};
pub use trajectory::{
    begin_read, begin_write, finish_read, num_atoms_from_scan, status_result, AtomCount, Trajectory,
};

verus! {

} // verus!
