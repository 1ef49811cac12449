//! The trajectory contract and the decisions taken around each native call.
//!
//! A trajectory operation alternates native work (a metadata scan, a record
//! read or write) with decisions. The decisions live here, as functions from
//! what is known so far to what happens next; the caller that owns the native
//! handle performs each native call in between and hands back its status.
use vstd::prelude::*;
use lazy_init::Lazy;
use crate::convert::{out_of_range, to};
use crate::errors::{check_code, status_error, Error, ErrorCode, ErrorTask};
use crate::frame::Frame;

verus! {

/// The operations shared by the xtc and trr trajectories.
pub trait Trajectory {
    /// The coordinate scalar of the format.
    type Scalar;

    /// Reads the next step of the trajectory into `frame`.
    fn read(&mut self, frame: &mut Frame<Self::Scalar>) -> Result<(), Error>;

    /// Writes `frame` to the trajectory file.
    fn write(&mut self, frame: &Frame<Self::Scalar>) -> Result<(), Error>;

    /// Flushes the trajectory file.
    fn flush(&mut self) -> Result<(), Error>;

    /// The number of atoms in each frame of the file.
    fn get_num_atoms(&mut self) -> Result<usize, Error>;
}

/// `lazy_init::Lazy`, a cell that is filled once, held opaque.
#[verifier::external_type_specification]
#[verifier::external_body]
#[verifier::reject_recursive_types(T)]
pub struct ExLazy<T>(Lazy<T>);

/// What a memo cell holds: nothing yet, or the outcome it was filled with.
pub uninterp spec fn cell_contents(cell: Lazy<Result<usize, Error>>) -> Option<Result<usize, Error>>;

/// Relies on `lazy_init::Lazy::new`: a new cell holds nothing.
#[verifier::external_body]
fn empty_cell() -> (r: Lazy<Result<usize, Error>>)
    ensures
        cell_contents(r) is None,
{
    Lazy::new()
}

/// Relies on `lazy_init::Lazy::get`: the value the cell holds, if any.
#[verifier::external_body]
fn cell_value(cell: &Lazy<Result<usize, Error>>) -> (r: Option<&Result<usize, Error>>)
    ensures
        r is None <==> cell_contents(*cell) is None,
        r matches Some(v) ==> cell_contents(*cell) == Some(*v),
{
    cell.get()
}

/// Relies on `lazy_init::Lazy::get_or_create`: an empty cell takes the value
/// its closure returns; a filled cell keeps its value and does not call it.
#[verifier::external_body]
fn fill_cell(cell: &mut Lazy<Result<usize, Error>>, v: Result<usize, Error>)
    ensures
        cell_contents(*old(cell)) is None ==> cell_contents(*final(cell)) == Some(v),
        cell_contents(*old(cell)) is Some ==> cell_contents(*final(cell)) == cell_contents(*old(cell)),
{
    cell.get_or_create(|| v);
}

/// A copy of a memoized outcome.
fn copy_outcome(v: &Result<usize, Error>) -> (r: Result<usize, Error>)
    ensures
        r == *v,
{
    match v {
        Ok(n) => Ok(*n),
        Err(e) => Err(e.clone()),
    }
}

/// What the cell holds, copied.
fn cell_copy(cell: &Lazy<Result<usize, Error>>) -> (r: Option<Result<usize, Error>>)
    ensures
        r == cell_contents(*cell),
{
    match cell_value(cell) {
        Some(v) => Some(copy_outcome(v)),
        None => None,
    }
}

/// The memo after one atom-count request, where `scanned` is what the
/// metadata scan gives if the request has to run it.
pub open spec fn memo_after(memo: Option<Result<usize, Error>>, scanned: Result<usize, Error>) -> Option<
    Result<usize, Error>,
> {
    match memo {
        Some(m) => Some(m),
        None => Some(scanned),
    }
}

/// The answer to one atom-count request, as `memo_after`.
pub open spec fn memo_answer(memo: Option<Result<usize, Error>>, scanned: Result<usize, Error>) -> Result<
    usize,
    Error,
> {
    match memo {
        Some(m) => m,
        None => scanned,
    }
}

/// Whether an atom-count request runs the metadata scan: only while nothing
/// is memoized.
pub open spec fn needs_scan(memo: Option<Result<usize, Error>>) -> bool {
    memo is None
}

/// Asking a trajectory for its atom count three times in a row gives the same
/// answer each time, whatever each scan would see; only a request made while
/// nothing is memoized runs the metadata scan, so it runs at most once, and
/// exactly once on a trajectory that was never asked before.
pub proof fn lemma_atom_count_idempotent(
    memo: Option<Result<usize, Error>>,
    scan1: Result<usize, Error>,
    scan2: Result<usize, Error>,
    scan3: Result<usize, Error>,
)
    ensures
        memo_answer(memo, scan1) == memo_answer(memo_after(memo, scan1), scan2),
        memo_answer(memo_after(memo, scan1), scan2) == memo_answer(
            memo_after(memo_after(memo, scan1), scan2),
            scan3,
        ),
        !needs_scan(memo_after(memo, scan1)),
        !needs_scan(memo_after(memo_after(memo, scan1), scan2)),
        needs_scan(memo) <==> memo is None,
{
}

/// The memoized atom count of one trajectory.
///
/// The first request runs the native metadata scan; its outcome, success or
/// failure, is kept and answers every later request. A failure is not retried.
pub struct AtomCount {
    cell: Lazy<Result<usize, Error>>,
}

impl AtomCount {
    /// What is memoized: nothing before the first scan, then its outcome.
    pub closed spec fn memo(&self) -> Option<Result<usize, Error>> {
        cell_contents(self.cell)
    }

    /// A memo that holds nothing yet.
    pub fn new() -> (r: AtomCount)
        ensures
            r.memo() is None,
    {
        AtomCount { cell: empty_cell() }
    }

    /// The memoized outcome; `None` means that the scan must run now and its
    /// outcome be handed to `settle`.
    pub fn cached(&self) -> (r: Option<Result<usize, Error>>)
        ensures
            r == self.memo(),
            r is None <==> needs_scan(self.memo()),
    {
        cell_copy(&self.cell)
    }

    /// Records the outcome of the scan, unless one is memoized already, and
    /// returns the memoized outcome.
    pub fn settle(&mut self, scanned: Result<usize, Error>) -> (r: Result<usize, Error>)
        ensures
            final(self).memo() == memo_after(old(self).memo(), scanned),
            r == memo_answer(old(self).memo(), scanned),
    {
        match cell_copy(&self.cell) {
            Some(held) => held,
            None => {
                let answer = copy_outcome(&scanned);
                fill_cell(&mut self.cell, scanned);
                answer
            },
        }
    }

    /// Answers an atom-count request: from the memo when it holds an outcome,
    /// else by calling `scan` once and memoizing what it returns.
    pub fn get_or_scan<F: FnOnce() -> Result<usize, Error>>(&mut self, scan: F) -> (r: Result<usize, Error>)
        requires
            scan.requires(()),
        ensures
            old(self).memo() matches Some(m) ==> r == m && final(self).memo() == old(self).memo(),
            old(self).memo() is None ==> scan.ensures((), r) && final(self).memo() == Some(r),
    {
        match self.cached() {
            Some(known) => known,
            None => {
                let scanned = scan();
                self.settle(scanned)
            },
        }
    }
}

/// The atom count that a metadata scan gives, from its status and count.
pub fn num_atoms_from_scan(code: ErrorCode, count: i32) -> (r: Result<usize, Error>)
    ensures
        code != ErrorCode::ExdrOk ==> r == Err::<usize, Error>(status_error(code, ErrorTask::ReadNumAtoms)),
        code == ErrorCode::ExdrOk && count >= 0 ==> r == Ok::<usize, Error>(count as usize),
        code == ErrorCode::ExdrOk && count < 0 ==> (r matches Err(e) && out_of_range::<usize>(
            e,
            "num_atoms",
            count as int,
            ErrorTask::ReadNumAtoms,
        )),
{
    match check_code(code, ErrorTask::ReadNumAtoms) {
        Some(e) => Err(e),
        None => to(count, ErrorTask::ReadNumAtoms, "num_atoms"),
    }
}

/// The success or error of a native call that returned `code` during `task`.
pub fn status_result(code: ErrorCode, task: ErrorTask) -> (r: Result<(), Error>)
    ensures
        code == ErrorCode::ExdrOk <==> r is Ok,
        code != ErrorCode::ExdrOk ==> r == Err::<(), Error>(status_error(code, task)),
{
    match check_code(code, task) {
        Some(e) => Err(e),
        None => Ok(()),
    }
}

/// Decides whether a record may be read into `frame`, given the trajectory's
/// atom count; on success returns the atom count in native form.
///
/// Every refusal comes before any native call: a failed atom count, a frame
/// whose length differs from it, or a count that the native side cannot take.
pub fn begin_read<T>(num_atoms: Result<usize, Error>, frame: &Frame<T>) -> (r: Result<i32, Error>)
    ensures
        num_atoms matches Err(e) ==> r == Err::<i32, Error>(Error::CouldNotCheckNAtoms(Box::new(e))),
        num_atoms matches Ok(n) ==> (n != frame.coords@.len() ==> r == Err::<i32, Error>(
            Error::WrongSizeFrame { expected: n, found: frame.coords@.len() as usize },
        )),
        num_atoms matches Ok(n) ==> (n == frame.coords@.len() && n <= i32::MAX ==> r == Ok::<i32, Error>(
            n as i32,
        )),
        num_atoms matches Ok(n) ==> (n == frame.coords@.len() && n > i32::MAX ==> (r matches Err(e)
            && out_of_range::<i32>(e, "num_atoms", n as int, ErrorTask::Read))),
{
    match num_atoms {
        Err(e) => Err(Error::CouldNotCheckNAtoms(Box::new(e))),
        Ok(n) => {
            let found = frame.len();
            if n != found {
                Err(Error::WrongSizeFrame { expected: n, found })
            } else {
                to(n, ErrorTask::Read, "num_atoms")
            }
        },
    }
}

/// Completes a read after the native record read returned `code` and the
/// native step `step`: on success the frame takes the step.
///
/// A failed read, or a step that is negative, leaves the step as it was.
pub fn finish_read<T>(frame: &mut Frame<T>, code: ErrorCode, step: i32) -> (r: Result<(), Error>)
    ensures
        code != ErrorCode::ExdrOk ==> r == Err::<(), Error>(status_error(code, ErrorTask::Read)),
        code == ErrorCode::ExdrOk && step >= 0 ==> r is Ok,
        code == ErrorCode::ExdrOk && step < 0 ==> (r matches Err(e) && out_of_range::<usize>(
            e,
            "step",
            step as int,
            ErrorTask::Read,
        )),
        r is Ok ==> *final(frame) == (Frame { step: step as usize, ..*old(frame) }),
        r is Err ==> *final(frame) == *old(frame),
{
    if let Some(e) = check_code(code, ErrorTask::Read) {
        return Err(e);
    }
    match to(step, ErrorTask::Read, "step") {
        Ok(s) => {
            frame.step = s;
            Ok(())
        },
        Err(e) => Err(e),
    }
}

/// Decides whether `frame` may be written: on success returns its atom count
/// and step in native form. A field that does not fit fails the write before
/// any native call, so nothing is written.
pub fn begin_write<T>(frame: &Frame<T>) -> (r: Result<(i32, i32), Error>)
    ensures
        frame.coords@.len() <= i32::MAX && frame.step <= i32::MAX ==> r == Ok::<(i32, i32), Error>(
            (frame.coords@.len() as i32, frame.step as i32),
        ),
        frame.coords@.len() > i32::MAX ==> (r matches Err(e) && out_of_range::<i32>(
            e,
            "frame.num_atoms()",
            frame.coords@.len() as int,
            ErrorTask::Write,
        )),
        frame.coords@.len() <= i32::MAX && frame.step > i32::MAX ==> (r matches Err(e)
            && out_of_range::<i32>(e, "frame.step", frame.step as int, ErrorTask::Write)),
{
    let num_atoms: i32 = match to(frame.num_atoms(), ErrorTask::Write, "frame.num_atoms()") {
        Ok(n) => n,
        Err(e) => return Err(e),
    };
    let step: i32 = match to(frame.step, ErrorTask::Write, "frame.step") {
        Ok(s) => s,
        Err(e) => return Err(e),
    };
    Ok((num_atoms, step))
}

} // verus!
