//! One trajectory snapshot.
use vstd::prelude::*;

verus! {

/// One snapshot: step index, simulation time, periodic box and per-atom
/// coordinates.
///
/// The scalar type `T` is what the native codec reads and writes (single
/// precision for both formats); the library itself never computes on it.
#[derive(Debug, Clone, PartialEq)]
pub struct Frame<T> {
    pub step: usize,
    pub time: T,
    pub box_vector: [[T; 3]; 3],
    pub coords: Vec<[T; 3]>,
}

impl<T: Copy + Default> Frame<T> {
    /// An empty frame: no atoms, step zero, time and box at `T`'s default.
    pub fn new() -> (r: Frame<T>)
        ensures
            r.step == 0,
            r.coords@.len() == 0,
            T::default.ensures((), r.time),
            forall|i: int, k: int| 0 <= i < 3 && 0 <= k < 3 ==> #[trigger] r.box_vector[i][k] == r.time,
    {
        Frame::with_len(0)
    }

    /// A frame with room for `num_atoms` atoms, every scalar at `T`'s default.
    pub fn with_len(num_atoms: usize) -> (r: Frame<T>)
        ensures
            r.step == 0,
            r.coords@.len() == num_atoms,
            T::default.ensures((), r.time),
            forall|i: int, k: int| 0 <= i < num_atoms && 0 <= k < 3 ==> #[trigger] r.coords@[i][k] == r.time,
            forall|i: int, k: int| 0 <= i < 3 && 0 <= k < 3 ==> #[trigger] r.box_vector[i][k] == r.time,
    {
        let zero = T::default();
        let mut coords: Vec<[T; 3]> = Vec::with_capacity(num_atoms);
        let mut i: usize = 0;
        while i < num_atoms
            invariant
                i <= num_atoms,
                coords@.len() == i,
                forall|j: int, k: int| 0 <= j < i && 0 <= k < 3 ==> #[trigger] coords@[j][k] == zero,
            decreases num_atoms - i,
        {
            coords.push([zero, zero, zero]);
            i = i + 1;
        }
        Frame { step: 0, time: zero, box_vector: [[zero, zero, zero], [zero, zero, zero], [zero, zero, zero]], coords }
    }
}

impl<T> Frame<T> {
    /// The number of atoms: the length of the coordinate buffer.
    pub fn len(&self) -> (r: usize)
        ensures
            r == self.coords@.len(),
    {
        self.coords.len()
    }

    /// Whether the frame holds no atoms.
    pub fn is_empty(&self) -> (r: bool)
        ensures
            r == (self.coords@.len() == 0),
    {
        self.coords.len() == 0
    }

    /// The number of atoms: the length of the coordinate buffer.
    pub fn num_atoms(&self) -> (r: usize)
        ensures
            r == self.coords@.len(),
    {
        self.coords.len()
    }
}

} // verus!
