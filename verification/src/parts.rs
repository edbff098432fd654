//! A preloader that nobody shares: its three parts as plain values.

use crate::error::PreloaderError;
use crate::read::published;
use crate::read::Claim;
use crate::read::Step;
use crate::slot::Slot;
use crate::state::Access;
use crate::state::PreloaderState;
use vstd::prelude::*;

verus! {

/// The parts of a preloader that nobody shares any more.
#[verifier::reject_recursive_types(T)]
pub struct Parts<T> {
    /// The state in which the preloader was left.
    pub state: PreloaderState,
    /// The slot, with the receiver if nobody has drained it.
    pub slot: Slot<T>,
    /// The value, if it has been published.
    pub value: Option<T>,
}

impl<T> Parts<T> {
    /// The result of [`Parts::take`]: the two steps of a read, on the parts.
    pub open spec fn spec_take(self) -> Claim<T, T> {
        match Step::spec_begin(self.state, self.value) {
            Step::Done(answer) => Claim::Done(answer),
            Step::Lock => Claim::spec_of(self.slot@, self.value),
        }
    }

    /// Takes the value out of the parts, as a read would that owns what it reads.
    ///
    /// Before a load has put its receiver into the slot there is nothing to take.
    /// While the load is under way and nobody has drained the slot, the receiver is
    /// handed out to be awaited. In every other case the answer is the published
    /// value, or [`PreloaderError::Loading`] where a load has ended without one.
    pub fn take(self) -> (taken: Claim<T, T>)
        ensures
            taken == self.spec_take(),
    {
        let Parts { state, slot, value } = self;
        let mut slot = slot;
        match state.access() {
            Access::NotStarted => Claim::Done(Err(PreloaderError::NotLoaded)),
            Access::Pending => Claim::of(slot.take(), value),
            Access::Ready => Claim::Done(published(value)),
        }
    }
}

} // verus!
