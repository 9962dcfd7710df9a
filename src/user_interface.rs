//! State owned by the display task: the landmark selection.
use vstd::prelude::*;

use crate::landmark::{next_index, previous_index, Landmark, LandmarkTable};
use crate::screen::BUF_SIZE;

verus! {

/// One full-screen image, in the display controller's byte order.
pub type Frame = &'static [u8; BUF_SIZE];

/// The frames of an animation that remain to be shown, the current one first.
pub struct Anim {
    frames: &'static [Frame],
}

impl View for Anim {
    type V = Seq<Frame>;

    closed spec fn view(&self) -> Seq<Frame> {
        self.frames@
    }
}

impl Anim {
    /// An animation that shows `frames` in order.
    pub fn new(frames: &'static [Frame]) -> (r: Self)
        ensures
            r@ == frames@,
    {
        Anim { frames }
    }

    /// The animation from the following frame on, or nothing after the last frame.
    pub fn next(self) -> (r: Option<Anim>)
        ensures
            self@.len() > 1 ==> (r matches Some(a) && a@ == self@.subrange(1, self@.len() as int)),
            self@.len() <= 1 ==> r is None,
    {
        if self.frames.len() > 1 {
            Some(Anim { frames: vstd::slice::slice_subrange(self.frames, 1, self.frames.len()) })
        } else {
            None
        }
    }

    /// The frame shown now.
    pub fn current(&self) -> (r: Frame)
        requires
            self@.len() >= 1,
        ensures
            r == self@[0],
    {
        self.frames[0]
    }
}

/// The landmark table and the index of the selected landmark, always in range.
pub struct UserInterface {
    landmarks: LandmarkTable,
    landmark_index: usize,
}

impl UserInterface {
    pub closed spec fn wf(&self) -> bool {
        self.landmarks.wf() && self.landmark_index < self.landmarks@.len()
    }

    /// The landmarks that can be selected.
    pub closed spec fn table(&self) -> Seq<Landmark> {
        self.landmarks@
    }

    /// The index of the selected landmark.
    pub closed spec fn index(&self) -> int {
        self.landmark_index as int
    }

    /// A user interface over `landmarks` with the first landmark selected.
    pub fn new(landmarks: LandmarkTable) -> (r: Self)
        requires
            landmarks.wf(),
        ensures
            r.wf(),
            r.table() == landmarks@,
            r.index() == 0,
    {
        UserInterface { landmarks, landmark_index: 0 }
    }

    /// The index of the selected landmark.
    pub fn landmark_index(&self) -> (r: usize)
        ensures
            r == self.index(),
    {
        self.landmark_index
    }

    /// Selects the next landmark, wrapping from the last to the first.
    pub fn next_landmark(&mut self)
        requires
            old(self).wf(),
        ensures
            final(self).wf(),
            final(self).table() == old(self).table(),
            final(self).index() == next_index(old(self).index(), old(self).table().len() as int),
    {
        self.landmark_index = self.landmarks.next(self.landmark_index);
    }

    /// Selects the previous landmark, wrapping from the first to the last.
    pub fn previouse_landmark(&mut self)
        requires
            old(self).wf(),
        ensures
            final(self).wf(),
            final(self).table() == old(self).table(),
            final(self).index() == previous_index(
                old(self).index(),
                old(self).table().len() as int,
            ),
    {
        self.landmark_index = self.landmarks.previous(self.landmark_index);
    }

    /// The selected landmark.
    pub fn current_landmark(&self) -> (r: &Landmark)
        requires
            self.wf(),
        ensures
            *r == self.table()[self.index()],
    {
        self.landmarks.get(self.landmark_index)
    }
}

} // verus!
