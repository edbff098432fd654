//! The preloader as one sequential value.
//!
//! A preloader is shared, and what one thread reads of it another may change at any
//! moment. Its steps are nonetheless ordered: the state changes in indivisible
//! steps, and whoever works on the slot holds the lock. This module describes a
//! preloader by the sequence of its steps: [`Cache`] is all that a preloader holds
//! at one moment, and each step is a function from one such value to the next. The
//! steps are put together from the decisions that the executable code makes:
//! [`Step::spec_begin`], [`Claim::spec_of`], [`Delivery::spec_settle`] and
//! [`spec_published`]. What the channel delivers is no part of the preloader: it
//! enters each step as an argument.
//!
//! The module [`laws`](crate::laws) proves what holds of every such sequence.

use crate::delivery::Delivery;
use crate::error::PreloaderError;
use crate::parts::Parts;
use crate::read::spec_published;
use crate::read::Claim;
use crate::read::Step;
use crate::state::Access;
use crate::state::PreloaderState;
use tokio::sync::oneshot::Receiver;
use vstd::prelude::*;

verus! {

/// All that a preloader holds at one moment.
#[verifier::reject_recursive_types(T)]
pub struct Cache<T> {
    /// The state.
    pub state: PreloaderState,
    /// The receiver that waits in the slot, if one does.
    pub slot: Option<Receiver<T>>,
    /// The published value, if there is one.
    pub value: Option<T>,
}

impl<T> View for Parts<T> {
    type V = Cache<T>;

    open spec fn view(&self) -> Cache<T> {
        Cache { state: self.state, slot: self.slot@, value: self.value }
    }
}

impl<T> Cache<T> {
    /// A new preloader: idle, with an empty slot and no value.
    pub open spec fn fresh() -> Self {
        Cache { state: PreloaderState::Idle, slot: None, value: None }
    }

    /// What holds of a preloader at every moment of a run. Before the load is under
    /// way the slot is empty and there is no value; while it is under way there is
    /// no value yet; once the value is published the slot is empty.
    pub open spec fn wf(self) -> bool {
        match self.state {
            PreloaderState::Idle | PreloaderState::Start => self.slot is None && self.value is None,
            PreloaderState::Loading => self.value is None,
            PreloaderState::Loaded => self.slot is None && self.value is Some,
        }
    }

    /// Whether the value has been published, as `Preloader::is_loaded` tells it.
    pub open spec fn is_loaded(self) -> bool {
        self.state.spec_access() == Access::Ready
    }

    /// Whether a call of `Preloader::load` wins.
    pub open spec fn accepts(self) -> bool {
        self.state == PreloaderState::Idle
    }

    /// The step of `AtomicPreloaderState::advance` on the state: one state forward
    /// from `from`, and nothing from any other state.
    pub open spec fn advance(self, from: PreloaderState) -> Self {
        if self.state == from {
            match from {
                PreloaderState::Idle => Cache { state: PreloaderState::Start, ..self },
                PreloaderState::Start => Cache { state: PreloaderState::Loading, ..self },
                PreloaderState::Loading => Cache { state: PreloaderState::Loaded, ..self },
                PreloaderState::Loaded => self,
            }
        } else {
            self
        }
    }

    /// The step of `Preloader::load`.
    pub open spec fn begin(self) -> Self {
        self.advance(PreloaderState::Idle)
    }

    /// The step of `Preloader::set_handle`.
    pub open spec fn install(self, receiver: Receiver<T>) -> Self {
        Cache { slot: Some(receiver), ..self }.advance(PreloaderState::Start)
    }

    /// A whole load with the receiver `receiver`: the winner's two steps, and
    /// nothing for a loser.
    pub open spec fn load(self, receiver: Receiver<T>) -> Self {
        if self.accepts() {
            self.begin().install(receiver)
        } else {
            self
        }
    }

    /// The step of `Preloader::complete`, and its answer. The cell is written once:
    /// a value that is there stays.
    pub open spec fn complete(self, delivery: Delivery<T>) -> (Self, Result<T, PreloaderError>) {
        match delivery.spec_settle() {
            Ok(value) => {
                let written = if self.value is None {
                    Some(value)
                } else {
                    self.value
                };
                let after = Cache { value: written, ..self }.advance(PreloaderState::Loading);
                (after, spec_published(after.value))
            },
            Err(error) => (self, Err(error)),
        }
    }

    /// One read by a reader that gets the lock where it needs it, and its answer.
    /// `delivery` is what the receiver in the slot gives when this reader asks it.
    ///
    /// This is `Preloader::try_get` where the lock is free, with any delivery, and
    /// the suspending read of `Preloader::get`, `Preloader::claim` and
    /// `Preloader::complete` with the delivery that ends the wait.
    pub open spec fn read(self, delivery: Delivery<T>) -> (Self, Result<T, PreloaderError>) {
        match Step::spec_begin(self.state, self.value) {
            Step::Done(answer) => (self, answer),
            Step::Lock => match Claim::<T, T>::spec_of(self.slot, self.value) {
                Claim::Done(answer) => (self, answer),
                Claim::Receive(_) => if delivery.spent() {
                    Cache { slot: None, ..self }.complete(delivery)
                } else {
                    (self, Err(PreloaderError::Loading))
                },
            },
        }
    }

    /// One call of `Preloader::try_get`, and its answer. `locked` tells whether the
    /// reader gets the lock where it needs it.
    pub open spec fn try_get(self, locked: bool, delivery: Delivery<T>) -> (
        Self,
        Result<T, PreloaderError>,
    ) {
        if self.state.spec_access() == Access::Pending && !locked {
            (self, Err(PreloaderError::Loading))
        } else {
            self.read(delivery)
        }
    }

    /// The preloader after the reads of `deliveries`, one after another.
    pub open spec fn after(self, deliveries: Seq<Delivery<T>>) -> Self
        decreases deliveries.len(),
    {
        if deliveries.len() == 0 {
            self
        } else {
            self.after(deliveries.drop_last()).read(deliveries.last()).0
        }
    }
}

} // verus!
