//! The fixed table of landmarks and the cyclic selection of one of them.
use vstd::prelude::*;

use crate::fix::Position;

verus! {

/// A named geographic point, in the same datum and scaling as a fix position.
#[derive(Clone, Copy, Debug)]
pub struct Landmark {
    pub name: &'static str,
    pub position: Position,
}

/// A landmark table was configured without any entry.
#[derive(Clone, Copy, Debug, PartialEq, Eq, Structural)]
pub enum ConfigError {
    NoLandmarks,
}

/// The index after `index` in a table of `len` entries, wrapping to 0.
pub open spec fn next_index(index: int, len: int) -> int {
    (index + 1) % len
}

/// The index before `index` in a table of `len` entries, wrapping to the last.
pub open spec fn previous_index(index: int, len: int) -> int {
    if index == 0 {
        len - 1
    } else {
        index - 1
    }
}

/// Stepping past the last entry wraps to the first, stepping back from the
/// first wraps to the last, and the two steps undo each other, for every
/// table length of at least one.
pub proof fn lemma_selection_wraps(len: int, index: int)
    requires
        len >= 1,
        0 <= index < len,
    ensures
        next_index(len - 1, len) == 0,
        previous_index(0, len) == len - 1,
        0 <= next_index(index, len) < len,
        0 <= previous_index(index, len) < len,
        previous_index(next_index(index, len), len) == index,
        next_index(previous_index(index, len), len) == index,
{
    assert(next_index(len - 1, len) == 0) by (nonlinear_arith)
        requires
            len >= 1,
    ;
    if index + 1 < len {
        assert(next_index(index, len) == index + 1) by (nonlinear_arith)
            requires
                0 <= index,
                index + 1 < len,
        ;
    }
    if index > 0 {
        assert(next_index(index - 1, len) == index) by (nonlinear_arith)
            requires
                0 < index < len,
        ;
    }
}

/// An ordered, non-empty, immutable sequence of landmarks.
pub struct LandmarkTable {
    landmarks: Vec<Landmark>,
}

impl View for LandmarkTable {
    type V = Seq<Landmark>;

    closed spec fn view(&self) -> Seq<Landmark> {
        self.landmarks@
    }
}

impl LandmarkTable {
    pub open spec fn wf(&self) -> bool {
        self@.len() >= 1
    }

    /// The table of `landmarks`, in order; an empty list is a configuration error.
    pub fn new(landmarks: Vec<Landmark>) -> (r: Result<Self, ConfigError>)
        ensures
            landmarks@.len() == 0 <==> r == Err::<Self, ConfigError>(ConfigError::NoLandmarks),
            r matches Ok(t) ==> t.wf() && t@ == landmarks@,
    {
        if landmarks.len() == 0 {
            Err(ConfigError::NoLandmarks)
        } else {
            Ok(LandmarkTable { landmarks })
        }
    }

    /// The number of landmarks.
    pub fn len(&self) -> (r: usize)
        ensures
            r == self@.len(),
    {
        self.landmarks.len()
    }

    /// The landmark at `index`.
    pub fn get(&self, index: usize) -> (r: &Landmark)
        requires
            index < self@.len(),
        ensures
            *r == self@[index as int],
    {
        &self.landmarks[index]
    }

    /// The index after `index`, wrapping from the last entry to the first.
    pub fn next(&self, index: usize) -> (r: usize)
        requires
            self.wf(),
            index < self@.len(),
        ensures
            r == next_index(index as int, self@.len() as int),
            r < self@.len(),
    {
        proof {
            lemma_selection_wraps(self@.len() as int, index as int);
        }
        let len = self.landmarks.len();
        assert(index + 1 <= len);
        (index + 1) % len
    }

    /// The index before `index`, wrapping from the first entry to the last.
    pub fn previous(&self, index: usize) -> (r: usize)
        requires
            self.wf(),
            index < self@.len(),
        ensures
            r == previous_index(index as int, self@.len() as int),
            r < self@.len(),
    {
        if index == 0 {
            self.landmarks.len() - 1
        } else {
            index - 1
        }
    }
}

} // verus!
