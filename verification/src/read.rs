//! The decisions of a read, on what the read has seen.
//!
//! A read looks at the state, at the cell, and, while a load is under way, into the
//! slot. What it saw may be out of date a moment later, but what it makes of it is
//! decided here, by functions of what it saw and of nothing else. They are the same
//! for a reader that borrows the value (`V` is `&T`) and for one that takes it
//! (`V` is `T`).

use crate::error::PreloaderError;
use crate::state::Access;
use crate::state::PreloaderState;
use tokio::sync::oneshot::Receiver;
use vstd::prelude::*;

verus! {

/// The answer of [`published`].
pub open spec fn spec_published<V>(cell: Option<V>) -> Result<V, PreloaderError> {
    match cell {
        Some(value) => Ok(value),
        None => Err(PreloaderError::Loading),
    }
}

/// What a read answers that finds `cell` where the published value belongs: the
/// value, or [`PreloaderError::Loading`] where there is none.
pub fn published<V>(cell: Option<V>) -> (answer: Result<V, PreloaderError>)
    ensures
        answer == spec_published(cell),
{
    match cell {
        Some(value) => Ok(value),
        None => Err(PreloaderError::Loading),
    }
}

/// How a read begins: what the state makes of it.
pub enum Step<V> {
    /// The state has decided the read: this is its answer.
    Done(Result<V, PreloaderError>),
    /// The load is under way, and the answer lies in the slot: the reader has to
    /// lock it.
    Lock,
}

impl<V> Step<V> {
    /// The result of [`Step::begin`].
    pub open spec fn spec_begin(state: PreloaderState, cell: Option<V>) -> Self {
        match state.spec_access() {
            Access::NotStarted => Step::Done(Err(PreloaderError::NotLoaded)),
            Access::Pending => Step::Lock,
            Access::Ready => Step::Done(spec_published(cell)),
        }
    }

    /// The first step of a read that saw the state `state` and then found `cell` in
    /// the cell.
    ///
    /// Before a load has put its receiver into the slot, the read fails with
    /// [`PreloaderError::NotLoaded`]. While the load is under way, the reader is
    /// sent to the slot. Once the value is published, the read answers what it
    /// found in the cell.
    pub fn begin(state: PreloaderState, cell: Option<V>) -> (step: Self)
        ensures
            step == Self::spec_begin(state, cell),
    {
        match state.access() {
            Access::NotStarted => Step::Done(Err(PreloaderError::NotLoaded)),
            Access::Pending => Step::Lock,
            Access::Ready => Step::Done(published(cell)),
        }
    }
}

/// How a read goes on once it holds the lock of the slot.
#[verifier::reject_recursive_types(T)]
pub enum Claim<V, T> {
    /// The slot was empty: this is the read's answer.
    Done(Result<V, PreloaderError>),
    /// The receiver that waited in the slot. The reader awaits it; its last
    /// delivery decides the read.
    Receive(Receiver<T>),
}

impl<V, T> Claim<V, T> {
    /// The result of [`Claim::of`].
    pub open spec fn spec_of(receiver: Option<Receiver<T>>, cell: Option<V>) -> Self {
        match receiver {
            Some(receiver) => Claim::Receive(receiver),
            None => Claim::Done(spec_published(cell)),
        }
    }

    /// What holds of the second step of a read that found `before` in the slot and
    /// left `after` there, whatever it found in the cell: the slot is left empty,
    /// and the step is the one that [`Claim::of`] makes of what was in the slot and
    /// of what was in the cell.
    pub open spec fn claims(self, before: Option<Receiver<T>>, after: Option<Receiver<T>>) -> bool {
        &&& after is None
        &&& exists|cell: Option<V>| self == #[trigger] Self::spec_of(before, cell)
    }

    /// The second step of a read that took `receiver` out of the slot and found
    /// `cell` in the cell.
    ///
    /// A reader that found a receiver is the one to drain it. One that found the
    /// slot empty comes after the reader that drained it: it answers what that one
    /// published, or [`PreloaderError::Loading`] if that one got no value.
    pub fn of(receiver: Option<Receiver<T>>, cell: Option<V>) -> (claim: Self)
        ensures
            claim == Self::spec_of(receiver, cell),
    {
        match receiver {
            Some(receiver) => Claim::Receive(receiver),
            None => Claim::Done(published(cell)),
        }
    }
}

} // verus!
