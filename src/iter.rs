//! A lazy, finite, non-restartable sequence of trajectory frames that reuses
//! one frame buffer while no caller keeps the frame it was handed.
use vstd::prelude::*;
use std::rc::Rc;
use crate::errors::Error;
use crate::frame::Frame;
use crate::trajectory::Trajectory;

verus! {

/// Relies on `Rc::clone`: a second handle to the same frame.
#[verifier::external_body]
fn share<T>(frame: &Rc<Frame<T>>) -> (r: Rc<Frame<T>>)
    ensures
        r == *frame,
{
    Rc::clone(frame)
}

/// What the sequence yields after a read into `frame` ended in `outcome`:
/// the frame on success, nothing at the end of the file (the sequence ends
/// silently), or the error, after which the sequence ends.
pub fn yielded<T>(outcome: Result<(), Error>, frame: Frame<T>) -> (r: Option<Result<Frame<T>, Error>>)
    ensures
        outcome is Ok ==> r == Some(Ok::<Frame<T>, Error>(frame)),
        outcome matches Err(e) ==> (e.spec_is_eof() ==> r is None),
        outcome matches Err(e) ==> (!e.spec_is_eof() ==> r == Some(Err::<Frame<T>, Error>(e))),
{
    match outcome {
        Ok(()) => Some(Ok(frame)),
        Err(e) => {
            if e.is_eof() {
                None
            } else {
                Some(Err(e))
            }
        },
    }
}

/// Whether `f` is a fresh buffer for `n` atoms: step zero, every scalar at
/// `T`'s default.
pub open spec fn is_fresh<T: Default>(f: Frame<T>, n: nat) -> bool {
    &&& f.step == 0
    &&& f.coords@.len() == n
    &&& T::default.ensures((), f.time)
    &&& forall|i: int, k: int| 0 <= i < n && 0 <= k < 3 ==> #[trigger] f.coords@[i][k] == f.time
    &&& forall|i: int, k: int| 0 <= i < 3 && 0 <= k < 3 ==> #[trigger] f.box_vector[i][k] == f.time
}

/// The length of the first buffer, as `buffer_len`.
pub open spec fn spec_buffer_len(counted: Result<usize, Error>) -> nat {
    match counted {
        Ok(n) => n as nat,
        Err(_) => 0,
    }
}

/// The length of the first buffer, from the trajectory's atom count: the
/// count, or no atoms when it could not be had (the first read then reports
/// why).
pub fn buffer_len(counted: Result<usize, Error>) -> (r: usize)
    ensures
        counted matches Ok(n) ==> r == n,
        counted is Err ==> r == 0,
        r == spec_buffer_len(counted),
{
    match counted {
        Ok(n) => n,
        Err(_) => 0,
    }
}

/// The buffer that the next read goes into, from the frame handed out last:
/// that frame itself when no one else holds it any more, else a fresh buffer
/// of the same atom count, so that the held frame stays as it was.
pub fn next_buffer<T: Copy + Default>(held: Option<Rc<Frame<T>>>) -> (r: Frame<T>)
    ensures
        held matches Some(f) ==> r.coords@.len() == f.coords@.len(),
        held matches Some(f) ==> (r == *f || is_fresh(r, f.coords@.len())),
        held is None ==> is_fresh(r, 0),
{
    match held {
        Some(f) => match Rc::try_unwrap(f) {
            Ok(unshared) => unshared,
            Err(shared) => Frame::with_len(shared.len()),
        },
        None => Frame::with_len(0),
    }
}

/// Whether `b` is a buffer that `next_buffer` may give for `held`.
pub open spec fn handed_to_read<T: Default>(held: Option<Rc<Frame<T>>>, b: Frame<T>) -> bool {
    match held {
        Some(f) => b == *f || is_fresh(b, f.coords@.len()),
        None => is_fresh(b, 0),
    }
}

/// Whether `r` is what the sequence hands out after a read that ended in
/// `outcome` and left the buffer as `frame`.
pub open spec fn outcome_item<T>(
    outcome: Result<(), Error>,
    frame: Frame<T>,
    r: Option<Result<Rc<Frame<T>>, Error>>,
) -> bool {
    match outcome {
        Ok(()) => r matches Some(Ok(f)) && *f == frame,
        Err(e) => if e.spec_is_eof() {
            r is None
        } else {
            r == Some(Err::<Rc<Frame<T>>, Error>(e))
        },
    }
}

/// The frames of a trajectory, read one at a time.
///
/// Each frame is handed out shared. If the caller still holds the previous
/// frame when the next one is asked for, a fresh buffer of the same length is
/// read into and the held frame stays as it was; otherwise the buffer is read
/// into in place. The end of the file ends the sequence without an item; any
/// other error is handed out once, and then the sequence ends.
pub struct FrameIter<J: Trajectory> {
    trajectory: J,
    buffer: Option<Rc<Frame<J::Scalar>>>,
    finished: bool,
}

impl<J: Trajectory> FrameIter<J> where J::Scalar: Copy + Default {
    /// Whether the sequence has ended, by the end of the file or an error.
    pub closed spec fn is_finished(&self) -> bool {
        self.finished
    }

    /// The trajectory that the frames are read from.
    pub closed spec fn source(&self) -> J {
        self.trajectory
    }

    /// The frame handed out last, while the sequence goes on.
    pub closed spec fn last(&self) -> Option<Rc<Frame<J::Scalar>>> {
        self.buffer
    }

    /// The frames of `trajectory`, from its current position on. The buffer
    /// is sized by the trajectory's atom count; where that count cannot be
    /// had, the first read reports why. The trajectory is asked for its
    /// count once, and the buffer is fresh and of `buffer_len` of the answer.
    pub fn new(trajectory: J) -> (r: FrameIter<J>)
        ensures
            !r.is_finished(),
            r.last() is Some,
            exists|t: &mut J, c: Result<usize, Error>|
                #[trigger] J::get_num_atoms.ensures((t,), c) && *t == trajectory && *final(t) == r.source()
                    && (r.last() matches Some(f) && is_fresh(*f, spec_buffer_len(c))),
    {
        let mut trajectory = trajectory;
        let num_atoms = buffer_len(trajectory.get_num_atoms());
        FrameIter { trajectory, buffer: Some(Rc::new(Frame::with_len(num_atoms))), finished: false }
    }

    /// The next frame: `None` once the file has ended or an error has been
    /// handed out, and from then on. While the sequence goes on, the result
    /// is that of one `read` of the trajectory into the buffer that
    /// `next_buffer` gives for the frame handed out last.
    pub fn next_frame(&mut self) -> (r: Option<Result<Rc<Frame<J::Scalar>>, Error>>)
        ensures
            old(self).is_finished() ==> r is None && *final(self) == *old(self),
            r is None ==> final(self).is_finished(),
            r matches Some(Err(e)) ==> !e.spec_is_eof() && final(self).is_finished(),
            r matches Some(Ok(f)) ==> !final(self).is_finished() && final(self).last() == Some(f),
            !final(self).is_finished() ==> final(self).last() is Some,
            !old(self).is_finished() ==> exists|t: &mut J, b: &mut Frame<J::Scalar>, o: Result<(), Error>|
                #[trigger] J::read.ensures((t, b), o) && *t == old(self).source() && *final(t) == final(self).source()
                    && handed_to_read(old(self).last(), *b) && outcome_item(o, *final(b), r),
    {
        if self.finished {
            return None;
        }
        // the buffer is absent only once the sequence has ended
        let mut frame = next_buffer(self.buffer.take());
        let outcome = self.trajectory.read(&mut frame);
        match yielded(outcome, frame) {
            Some(Ok(read)) => {
                let handed = Rc::new(read);
                self.buffer = Some(share(&handed));
                Some(Ok(handed))
            },
            Some(Err(e)) => {
                self.finished = true;
                Some(Err(e))
            },
            None => {
                self.finished = true;
                None
            },
        }
    }
}

} // verus!
