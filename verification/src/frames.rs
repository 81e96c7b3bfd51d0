//! The frame that the sprite shows: an index that walks forward through a
//! closed range and wraps from its end to its start.

use vstd::prelude::*;

verus! {

/// What an [`AnimationState`] holds, as mathematical values.
pub struct FramesModel {
    /// The first frame of the cycle.
    pub first: nat,
    /// The last frame of the cycle.
    pub last: nat,
    /// The frame on show.
    pub current: nat,
}

impl FramesModel {
    /// The frame on show lies in the cycle.
    pub open spec fn wf(self) -> bool {
        self.first <= self.current <= self.last
    }

    /// The cycle from `first` to `last`, at its start.
    pub open spec fn at_start(first: nat, last: nat) -> FramesModel {
        FramesModel { first, last, current: first }
    }

    /// How many frames the cycle has.
    pub open spec fn len(self) -> nat {
        (self.last - self.first + 1) as nat
    }

    /// The frames one step on: the next frame, or the first after the last.
    pub open spec fn stepped(self) -> FramesModel {
        FramesModel {
            current: if self.current == self.last {
                self.first
            } else {
                self.current + 1
            },
            ..self
        }
    }

    /// The frames back at the start of the cycle.
    pub open spec fn rewound(self) -> FramesModel {
        FramesModel { current: self.first, ..self }
    }

    /// The frames `steps` steps on.
    pub open spec fn stepped_by(self, steps: nat) -> FramesModel
        decreases steps,
    {
        if steps == 0 {
            self
        } else {
            self.stepped_by((steps - 1) as nat).stepped()
        }
    }
}

/// The frame cycle of one sprite and the frame on show.
#[derive(Debug)]
pub struct AnimationState {
    first_index: usize,
    last_index: usize,
    current_index: usize,
}

impl View for AnimationState {
    type V = FramesModel;

    closed spec fn view(&self) -> FramesModel {
        FramesModel {
            first: self.first_index as nat,
            last: self.last_index as nat,
            current: self.current_index as nat,
        }
    }
}

impl AnimationState {
    /// The frame on show always lies in the cycle.
    #[verifier::type_invariant]
    pub open spec fn inv(&self) -> bool {
        self@.wf()
    }

    /// The cycle from `first_index` to `last_index`, showing its first
    /// frame, if the range holds a frame at all.
    pub fn new(first_index: usize, last_index: usize) -> (made: Option<AnimationState>)
        ensures
            made.is_some() <==> first_index <= last_index,
            made matches Some(state) ==> state@ == FramesModel::at_start(
                first_index as nat,
                last_index as nat,
            ),
    {
        if first_index <= last_index {
            Some(AnimationState { first_index, last_index, current_index: first_index })
        } else {
            None
        }
    }

    /// The first frame of the cycle.
    pub fn first_index(&self) -> (index: usize)
        ensures
            index == self@.first,
    {
        self.first_index
    }

    /// The last frame of the cycle.
    pub fn last_index(&self) -> (index: usize)
        ensures
            index == self@.last,
    {
        self.last_index
    }

    /// The frame on show.
    pub fn current_index(&self) -> (index: usize)
        ensures
            index == self@.current,
    {
        self.current_index
    }

    /// Moves one frame on, from the last frame back to the first.
    pub fn step(&mut self)
        ensures
            final(self)@ == old(self)@.stepped(),
    {
        proof {
            use_type_invariant(&*self);
        }
        self.current_index = if self.current_index == self.last_index {
            self.first_index
        } else {
            self.current_index + 1
        };
    }

    /// Goes back to the first frame.
    pub fn rewind(&mut self)
        ensures
            final(self)@ == old(self)@.rewound(),
    {
        proof {
            use_type_invariant(&*self);
        }
        self.current_index = self.first_index;
    }
}

} // verus!
