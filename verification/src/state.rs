//! The lifecycle of a preloader, and the atomic cell that holds it.

use std::sync::atomic::AtomicU8;
use std::sync::atomic::Ordering;
use vstd::prelude::*;

verus! {

/// Where a preloader stands in its life. The states are passed through in the order
/// in which they are written here, one step at a time, and never backwards.
#[derive(Clone, Copy, Debug, PartialEq, Eq, Structural)]
pub enum PreloaderState {
    /// No load has been started.
    Idle,
    /// One call has won the right to start the load and has not yet put the
    /// receiver into the slot.
    Start,
    /// The load is under way: its value comes through the slot.
    Loading,
    /// The value has been published.
    Loaded,
}

/// What a read has to do, as far as the state decides it.
#[derive(Clone, Copy, Debug, PartialEq, Eq, Structural)]
pub enum Access {
    /// There is no load to wait for: the read fails with
    /// [`PreloaderError::NotLoaded`](crate::PreloaderError::NotLoaded).
    NotStarted,
    /// The value comes through the slot: the read has to look there.
    Pending,
    /// The value has been published: the read takes it from the cell.
    Ready,
}

impl PreloaderState {
    /// The position of a state in the lifecycle, from 0 for `Idle` to 3 for `Loaded`.
    pub open spec fn rank(self) -> nat {
        match self {
            PreloaderState::Idle => 0,
            PreloaderState::Start => 1,
            PreloaderState::Loading => 2,
            PreloaderState::Loaded => 3,
        }
    }

    /// The state that a code stands for. A code above 3, which no state has, reads as
    /// the last state.
    pub open spec fn of_code(code: u8) -> Self {
        if code == 0 {
            PreloaderState::Idle
        } else if code == 1 {
            PreloaderState::Start
        } else if code == 2 {
            PreloaderState::Loading
        } else {
            PreloaderState::Loaded
        }
    }

    /// Whether `next` is the state that follows `self` in the lifecycle.
    pub open spec fn precedes(self, next: Self) -> bool {
        self.rank() + 1 == next.rank()
    }

    /// What a read has to do in this state.
    pub open spec fn spec_access(self) -> Access {
        match self {
            PreloaderState::Idle | PreloaderState::Start => Access::NotStarted,
            PreloaderState::Loading => Access::Pending,
            PreloaderState::Loaded => Access::Ready,
        }
    }

    /// The code under which the state is kept in an atomic byte: its rank.
    pub fn code(self) -> (code: u8)
        ensures
            code == self.rank(),
            Self::of_code(code) == self,
    {
        match self {
            PreloaderState::Idle => 0,
            PreloaderState::Start => 1,
            PreloaderState::Loading => 2,
            PreloaderState::Loaded => 3,
        }
    }

    /// The state that a code stands for.
    pub fn from_code(code: u8) -> (state: Self)
        ensures
            state == Self::of_code(code),
            code <= 3 ==> state.rank() == code,
    {
        if code == 0 {
            PreloaderState::Idle
        } else if code == 1 {
            PreloaderState::Start
        } else if code == 2 {
            PreloaderState::Loading
        } else {
            PreloaderState::Loaded
        }
    }

    /// What a read has to do in this state: fail before a load has put its receiver
    /// into the slot, look into the slot while the load is under way, and take the
    /// published value afterwards.
    pub fn access(self) -> (access: Access)
        ensures
            access == self.spec_access(),
    {
        match self {
            PreloaderState::Idle | PreloaderState::Start => Access::NotStarted,
            PreloaderState::Loading => Access::Pending,
            PreloaderState::Loaded => Access::Ready,
        }
    }

    /// Whether this is the state in which the value has been published.
    pub fn is_loaded(self) -> (loaded: bool)
        ensures
            loaded == (self == PreloaderState::Loaded),
            loaded == (self.spec_access() == Access::Ready),
    {
        match self {
            PreloaderState::Loaded => true,
            PreloaderState::Idle | PreloaderState::Start | PreloaderState::Loading => false,
        }
    }

    /// The state that follows this one in the lifecycle. `Loaded` is the last state
    /// and has none.
    pub fn next(self) -> (next: Option<Self>)
        ensures
            match next {
                Some(next) => self.precedes(next),
                None => self == PreloaderState::Loaded,
            },
    {
        match self {
            PreloaderState::Idle => Some(PreloaderState::Start),
            PreloaderState::Start => Some(PreloaderState::Loading),
            PreloaderState::Loading => Some(PreloaderState::Loaded),
            PreloaderState::Loaded => None,
        }
    }
}

/// A [`PreloaderState`] that threads read and write without a lock.
///
/// The cell starts in `Idle`, and the only way to change it is `advance`, which
/// moves it one state forward. So the states that a cell holds in the course of
/// time form the lifecycle, whatever its users do. Reads acquire and writes
/// release: whoever reads a state also sees what the thread that wrote it did
/// before.
pub(crate) struct AtomicPreloaderState {
    code: AtomicU8,
}

impl AtomicPreloaderState {
    /// A cell that holds `Idle`.
    pub(crate) fn new() -> (cell: Self) {
        AtomicPreloaderState { code: AtomicU8::new(PreloaderState::Idle.code()) }
    }

    /// The state that the cell holds at the moment of the call.
    pub(crate) fn load(&self) -> (state: PreloaderState) {
        PreloaderState::from_code(self.code.load(Ordering::Acquire))
    }

    /// Moves the cell from `from` to the state that follows it, in one indivisible
    /// step, and tells whether it did. It does not where the cell holds another
    /// state than `from`; of the threads that try the same step at once, one
    /// succeeds. From `Loaded` there is no step to take.
    pub(crate) fn advance(&self, from: PreloaderState) -> (advanced: bool)
        ensures
            from == PreloaderState::Loaded ==> !advanced,
    {
        match from.next() {
            None => false,
            Some(next) => {
                let swapped = self.code.compare_exchange(
                    from.code(),
                    next.code(),
                    Ordering::AcqRel,
                    Ordering::Acquire,
                );
                swapped.is_ok()
            },
        }
    }
}

} // verus!
