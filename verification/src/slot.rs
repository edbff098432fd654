//! The slot in which the receiver waits, and the lock that guards it.

use crate::delivery::try_recv;
use crate::delivery::Delivery;
use tokio::sync::oneshot::Receiver;
use tokio::sync::Mutex;
use tokio::sync::MutexGuard;
use tokio::sync::TryLockError;
use vstd::prelude::*;

verus! {

/// Tokio's asynchronous mutex. Verus sees nothing inside it.
#[verifier::external_type_specification]
#[verifier::external_body]
#[verifier::reject_recursive_types(T)]
pub struct ExMutex<T: ?Sized>(Mutex<T>);

/// The guard of a locked [`Mutex`]. The lock is released when the guard is dropped.
#[verifier::external_type_specification]
#[verifier::external_body]
#[verifier::reject_recursive_types(T)]
pub struct ExMutexGuard<'a, T: ?Sized>(MutexGuard<'a, T>);

/// The error of `Mutex::try_lock`: the lock is held elsewhere.
#[verifier::external_type_specification]
#[verifier::external_body]
pub struct ExTryLockError(TryLockError);

/// Tokio's `Mutex::try_lock`: the guard, or an error if the lock is held. Whether it
/// is held depends on the other threads, so nothing is claimed of the result.
pub assume_specification<T: ?Sized>[ Mutex::<T>::try_lock ](mutex: &Mutex<T>) -> (locked: Result<
    MutexGuard<'_, T>,
    TryLockError,
>)
;

/// A new, unlocked mutex around `value`, by tokio's `Mutex::new`.
#[verifier::external_body]
pub(crate) fn mutex_new<V>(value: V) -> (mutex: Mutex<V>) {
    Mutex::new(value)
}

/// What a mutex guards, once nobody shares the mutex any more, by tokio's
/// `Mutex::into_inner`. What other threads have left there is not known to Verus.
#[verifier::external_body]
pub(crate) fn mutex_into_inner<V>(mutex: Mutex<V>) -> (value: V) {
    mutex.into_inner()
}

/// What a guard gives access to, for as long as the guard is borrowed, by the
/// guard's `DerefMut`. What other threads have left there is not known to Verus.
#[verifier::external_body]
pub(crate) fn guarded<'a, 'b, V>(guard: &'a mut MutexGuard<'b, V>) -> (value: &'a mut V) {
    &mut **guard
}

/// The place where the receiver of a load waits until a read drains it.
///
/// A slot is empty before the load has started and after the receiver has given
/// its last delivery. Whoever changes a slot holds the lock around it, so a slot is
/// an ordinary value to the code that works on it.
#[verifier::reject_recursive_types(T)]
pub struct Slot<T> {
    receiver: Option<Receiver<T>>,
}

impl<T> View for Slot<T> {
    type V = Option<Receiver<T>>;

    /// The receiver that waits in the slot, if one does.
    closed spec fn view(&self) -> Option<Receiver<T>> {
        self.receiver
    }
}

impl<T> Slot<T> {
    /// Whether a receiver waits in the slot.
    pub open spec fn waiting(&self) -> bool {
        self@ is Some
    }

    /// An empty slot.
    pub fn new() -> (slot: Self)
        ensures
            !slot.waiting(),
    {
        Slot { receiver: None }
    }

    /// Whether a receiver waits in the slot.
    pub fn is_waiting(&self) -> (waiting: bool)
        ensures
            waiting == self.waiting(),
    {
        self.receiver.is_some()
    }

    /// Puts a receiver into the slot. One that waited there is dropped.
    pub fn install(&mut self, receiver: Receiver<T>)
        ensures
            final(self)@ == Some(receiver),
    {
        self.receiver = Some(receiver);
    }

    /// Takes the receiver out of the slot, for a reader that is going to await it.
    pub fn take(&mut self) -> (receiver: Option<Receiver<T>>)
        ensures
            receiver == old(self)@,
            !final(self).waiting(),
    {
        self.receiver.take()
    }

    /// Asks the receiver in the slot for the value, without waiting.
    ///
    /// The answer is `None` if the slot is empty. If a receiver waits there, the
    /// answer is its delivery, whatever that is; a receiver that has nothing more
    /// to give leaves the slot, and one whose channel is still empty stays, so that
    /// a later read may drain it.
    pub fn poll(&mut self) -> (polled: Option<Delivery<T>>)
        ensures
            polled is Some <==> old(self).waiting(),
            final(self).waiting() <==> polled == Some(Delivery::<T>::Empty),
            final(self).waiting() ==> final(self)@ == old(self)@,
    {
        let delivery = match &mut self.receiver {
            None => {
                return None;
            },
            Some(receiver) => try_recv(receiver),
        };
        if delivery.is_spent() {
            self.receiver = None;
        }
        Some(delivery)
    }
}

} // verus!
