//! The preloader: a state, a slot behind a lock, and a cell for the value.

use crate::cell::get_or_init;
use crate::delivery::Delivery;
use crate::error::PreloaderError;
use crate::parts::Parts;
use crate::read::published;
use crate::read::spec_published;
use crate::read::Claim;
use crate::read::Step;
use crate::slot::guarded;
use crate::slot::mutex_into_inner;
use crate::slot::mutex_new;
use crate::slot::Slot;
use crate::state::Access;
use crate::state::AtomicPreloaderState;
use crate::state::PreloaderState;
use std::sync::OnceLock;
use tokio::sync::oneshot::Receiver;
use tokio::sync::Mutex;
use tokio::sync::MutexGuard;
use tokio::sync::TryLockError;
use vstd::prelude::*;

verus! {

/// A value that is loaded once, in the background, and then served from memory.
///
/// A preloader is shared by reference: every method but [`Preloader::take`] takes
/// `&self`, and any number of threads may call them at once.
///
/// The three fields are the three things a preloader is made of. The state is read
/// and written without a lock. The slot sits behind the lock, and whoever drains it
/// holds the lock until the value is published and the state says so. The cell is
/// written once, by the reader that drains the slot, and read by everyone.
#[verifier::reject_recursive_types(T)]
pub struct Preloader<T> {
    state: AtomicPreloaderState,
    handle: Mutex<Slot<T>>,
    value: OnceLock<T>,
}

impl<T> Preloader<T> {
    /// The lock around the slot.
    pub closed spec fn lock(&self) -> Mutex<Slot<T>> {
        self.handle
    }

    /// A preloader in the state [`PreloaderState::Idle`], with an empty slot and no
    /// value. Nothing runs in the background yet.
    pub fn new() -> (preloader: Self) {
        Preloader {
            state: AtomicPreloaderState::new(),
            handle: mutex_new(Slot::new()),
            value: OnceLock::new(),
        }
    }

    /// Whether the value has been published.
    ///
    /// This reads the state and nothing else. A load whose value waits in the
    /// channel, and which no read has drained, does not count as loaded.
    pub fn is_loaded(&self) -> (loaded: bool) {
        self.state.load().is_loaded()
    }

    /// The lock around the slot, for a caller that awaits it between
    /// [`Preloader::load`] and [`Preloader::set_handle`], or between
    /// [`Preloader::get`] and [`Preloader::claim`].
    pub fn slot(&self) -> (slot: &Mutex<Slot<T>>)
        ensures
            *slot == self.lock(),
    {
        &self.handle
    }

    /// Claims the right to start the load. The answer is `true` for the one call
    /// that moves the preloader from [`PreloaderState::Idle`] to
    /// [`PreloaderState::Start`], and `false` for every other call, which changes
    /// nothing.
    ///
    /// The winner starts the computation, sends its value over a one-time channel,
    /// and hands the receiver to [`Preloader::set_handle`]. A loser drops its
    /// computation unrun.
    pub fn load(&self) -> (won: bool) {
        self.state.advance(PreloaderState::Idle)
    }

    /// Puts the receiver of the started load into the locked slot, and then moves
    /// the preloader to [`PreloaderState::Loading`]: whoever reads that state finds
    /// the receiver in the slot.
    pub fn set_handle(&self, slot: &mut Slot<T>, receiver: Receiver<T>)
        ensures
            final(slot)@ == Some(receiver),
    {
        slot.install(receiver);
        let _ = self.state.advance(PreloaderState::Start);
    }

    /// Reads the value without waiting.
    ///
    /// Before a load has put its receiver into the slot, the answer is
    /// [`PreloaderError::NotLoaded`]. Once the value is published, the answer is the
    /// value. In between, the read tries the lock and asks the receiver: the answer
    /// is [`PreloaderError::Loading`] if the lock is held, if the value has not been
    /// sent, or if none will come; a value that has arrived is published and
    /// returned.
    ///
    /// The read looks at the state and then at the cell; what it makes of the two
    /// is stated on [`Preloader::try_get_in`].
    pub fn try_get(&self) -> (answer: Result<&T, PreloaderError>) {
        let state = self.state.load();
        self.try_get_in(state, self.value.get())
    }

    /// Reads the value without waiting, for a reader that saw the state `state` and
    /// then found `cell` in the cell.
    ///
    /// The answer is [`PreloaderError::NotLoaded`] in the states before the load is
    /// under way, and in no other. Once the value is published, the answer is what
    /// the reader found in the cell. While the load is under way the reader goes to
    /// the slot, and the answer is a value or [`PreloaderError::Loading`].
    pub fn try_get_in<'a>(&'a self, state: PreloaderState, cell: Option<&'a T>) -> (answer: Result<
        &'a T,
        PreloaderError,
    >)
        ensures
            state.spec_access() == Access::NotStarted <==> answer == Err::<&T, PreloaderError>(
                PreloaderError::NotLoaded,
            ),
            state.spec_access() == Access::Ready ==> answer == spec_published(cell),
            state.spec_access() == Access::Pending ==> answer is Ok || answer == Err::<
                &T,
                PreloaderError,
            >(PreloaderError::Loading),
    {
        match Step::begin(state, cell) {
            Step::Done(answer) => answer,
            Step::Lock => self.poll(self.handle.try_lock()),
        }
    }

    /// Goes on with a read that does not wait, on the outcome of its attempt at
    /// the lock of the slot.
    ///
    /// Behind a held lock the answer is [`PreloaderError::Loading`]. With the
    /// lock, the answer is that of [`Preloader::poll_slot`]. Either way it is a
    /// value or [`PreloaderError::Loading`].
    fn poll(&self, locked: Result<MutexGuard<'_, Slot<T>>, TryLockError>) -> (answer: Result<
        &T,
        PreloaderError,
    >)
        ensures
            locked is Err ==> answer == Err::<&T, PreloaderError>(PreloaderError::Loading),
            answer is Ok || answer == Err::<&T, PreloaderError>(PreloaderError::Loading),
    {
        match locked {
            Err(_) => Err(PreloaderError::Loading),
            Ok(mut guard) => self.poll_slot(guarded(&mut guard)),
        }
    }

    /// Goes on with a read that does not wait and holds the lock of the slot.
    ///
    /// The reader asks the receiver in the slot. If the value has not been sent,
    /// the answer is [`PreloaderError::Loading`] and the receiver stays where it
    /// is, for a later read to drain. A value that has arrived is published and
    /// returned, and a channel that is closed is answered with
    /// [`PreloaderError::Loading`]; in both cases the slot is empty afterwards. A
    /// reader that finds the slot empty answers from the cell.
    pub fn poll_slot(&self, slot: &mut Slot<T>) -> (answer: Result<&T, PreloaderError>)
        ensures
            answer is Ok || answer == Err::<&T, PreloaderError>(PreloaderError::Loading),
            final(slot).waiting() ==> old(slot).waiting() && final(slot)@ == old(slot)@ && answer
                == Err::<&T, PreloaderError>(PreloaderError::Loading),
            answer is Ok ==> !final(slot).waiting(),
            !old(slot).waiting() ==> !final(slot).waiting(),
    {
        let polled = slot.poll();
        self.answer_polled(polled)
    }

    /// Ends a read that does not wait, on what [`Slot::poll`] gave.
    ///
    /// A delivery ends the read as [`Preloader::complete`] says: a value is
    /// published and returned, and any other delivery is answered with
    /// [`PreloaderError::Loading`]. Where the slot was empty, the answer comes from
    /// the cell: the published value, or [`PreloaderError::Loading`] where there is
    /// none.
    pub fn answer_polled(&self, polled: Option<Delivery<T>>) -> (answer: Result<
        &T,
        PreloaderError,
    >)
        ensures
            polled is Some ==> (answer is Ok <==> polled->0 is Value),
            answer is Ok || answer == Err::<&T, PreloaderError>(PreloaderError::Loading),
    {
        match polled {
            None => self.get_value(),
            Some(delivery) => self.complete(delivery),
        }
    }

    /// Begins a read that waits for the value.
    ///
    /// The state decides as in [`Preloader::try_get`]; only where the load is under
    /// way the answer is left open, and the reader is told to lock the slot.
    pub fn get(&self) -> (step: Step<&T>) {
        let state = self.state.load();
        Step::begin(state, self.value.get())
    }

    /// Goes on with a read that holds the lock of the slot.
    ///
    /// A receiver that waits in the slot is taken out and handed to the reader, who
    /// is the one to drain it. If the slot is empty, another reader has drained it:
    /// the answer is the published value, or [`PreloaderError::Loading`] if that
    /// reader got none.
    pub fn claim(&self, slot: &mut Slot<T>) -> (claim: Claim<&T, T>)
        ensures
            claim.claims(old(slot)@, final(slot)@),
            !final(slot).waiting(),
            claim is Receive <==> old(slot).waiting(),
            claim matches Claim::Receive(receiver) ==> old(slot)@ == Some(receiver),
            claim matches Claim::Done(answer) ==> (answer is Ok || answer == Err::<
                &T,
                PreloaderError,
            >(PreloaderError::Loading)),
    {
        let cell = self.value.get();
        let claim = Claim::of(slot.take(), cell);
        assert(claim == Claim::<&T, T>::spec_of(old(slot)@, cell));
        claim
    }

    /// Ends a read with the last delivery of the receiver.
    ///
    /// A value is published, the preloader moves to [`PreloaderState::Loaded`], and
    /// the answer is the published value. Any other delivery is answered with
    /// [`PreloaderError::Loading`] and changes nothing.
    pub fn complete(&self, delivery: Delivery<T>) -> (answer: Result<&T, PreloaderError>)
        ensures
            answer is Ok <==> delivery is Value,
            !(delivery is Value) ==> answer == Err::<&T, PreloaderError>(PreloaderError::Loading),
    {
        match delivery.settle() {
            Ok(value) => self.set_value(value),
            Err(error) => Err(error),
        }
    }

    /// What the cell holds at the moment of the call, as the answer of a read: the
    /// published value, or [`PreloaderError::Loading`] where there is none.
    fn get_value(&self) -> (answer: Result<&T, PreloaderError>)
        ensures
            answer is Ok || answer == Err::<&T, PreloaderError>(PreloaderError::Loading),
    {
        published(self.value.get())
    }

    /// Publishes `value`: writes it into the cell, unless the cell has been written
    /// before, and then moves the preloader from [`PreloaderState::Loading`] to
    /// [`PreloaderState::Loaded`], so that whoever reads that state finds the value
    /// in the cell. The answer is what the cell holds then, and there is always
    /// something.
    fn set_value(&self, value: T) -> (answer: Result<&T, PreloaderError>)
        ensures
            answer is Ok,
    {
        let stored = get_or_init(&self.value, value);
        let _ = self.state.advance(PreloaderState::Loading);
        Ok(stored)
    }

    /// Takes the preloader apart. Nobody shares it any more, so no lock is needed.
    pub fn into_parts(self) -> (parts: Parts<T>) {
        let state = self.state.load();
        let Preloader { state: _, handle, value } = self;
        Parts { state, slot: mutex_into_inner(handle), value: value.into_inner() }
    }

    /// Takes the value out of the preloader, which is used up.
    ///
    /// The answer is that of [`Parts::take`] on the preloader's parts.
    pub fn take(self) -> (taken: Claim<T, T>) {
        self.into_parts().take()
    }
}

} // verus!
