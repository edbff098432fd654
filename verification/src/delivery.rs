//! The one-time channel over which a load delivers its value.

use crate::error::PreloaderError;
use tokio::sync::oneshot::error::RecvError;
use tokio::sync::oneshot::error::TryRecvError;
use tokio::sync::oneshot::Receiver;
use vstd::prelude::*;

verus! {

/// The receiving half of tokio's one-time channel. Verus sees nothing inside it.
#[verifier::external_type_specification]
#[verifier::external_body]
#[verifier::reject_recursive_types(T)]
pub struct ExReceiver<T>(Receiver<T>);

/// The error with which an awaited [`Receiver`] ends when its sending half was
/// dropped without sending.
#[verifier::external_type_specification]
#[verifier::external_body]
pub struct ExRecvError(RecvError);

/// What the receiving half of the channel gives when it is asked for the value.
#[derive(Debug, PartialEq, Eq)]
pub enum Delivery<T> {
    /// The load has not sent its value yet. Asking again later may give more.
    Empty,
    /// The value that the load sent. It is given once.
    Value(T),
    /// No value will come: the sending half was dropped without sending, or the
    /// value was given before.
    Closed,
}

impl<T> Delivery<T> {
    /// Whether the receiver that gave this delivery has nothing more to give.
    pub open spec fn spent(self) -> bool {
        !(self is Empty)
    }

    /// The answer of [`Delivery::settle`].
    pub open spec fn spec_settle(self) -> Result<T, PreloaderError> {
        match self {
            Delivery::Value(value) => Ok(value),
            Delivery::Empty | Delivery::Closed => Err(PreloaderError::Loading),
        }
    }

    /// The delivery that an awaited receiver's outcome stands for.
    pub open spec fn spec_from_received(outcome: Result<T, RecvError>) -> Self {
        match outcome {
            Ok(value) => Delivery::Value(value),
            Err(_) => Delivery::Closed,
        }
    }

    /// Whether the receiver that gave this delivery has nothing more to give: true
    /// of a value and of a closed channel, false while the channel is empty.
    pub fn is_spent(&self) -> (spent: bool)
        ensures
            spent == self.spent(),
    {
        match self {
            Delivery::Empty => false,
            Delivery::Value(_) => true,
            Delivery::Closed => true,
        }
    }

    /// What a read answers that has nothing but this delivery to go by: the value
    /// if it is there, and [`PreloaderError::Loading`] if it is not, be it late or
    /// lost.
    pub fn settle(self) -> (answer: Result<T, PreloaderError>)
        ensures
            answer == self.spec_settle(),
    {
        match self {
            Delivery::Value(value) => Ok(value),
            Delivery::Empty => Err(PreloaderError::Loading),
            Delivery::Closed => Err(PreloaderError::Loading),
        }
    }

    /// The delivery that the outcome of an awaited receiver stands for: the value,
    /// or a closed channel. An awaited receiver is never empty.
    pub fn from_received(outcome: Result<T, RecvError>) -> (delivery: Self)
        ensures
            delivery == Self::spec_from_received(outcome),
            delivery.spent(),
    {
        match outcome {
            Ok(value) => Delivery::Value(value),
            Err(_) => Delivery::Closed,
        }
    }
}

/// Asks a receiver for the value without waiting, by tokio's `Receiver::try_recv`.
///
/// Which delivery comes back depends on how far the sender has come, so nothing is
/// claimed of it. The one claim is that an empty channel leaves the receiver as it
/// was: `try_recv` returns that answer before it touches the receiver.
#[verifier::external_body]
pub(crate) fn try_recv<T>(receiver: &mut Receiver<T>) -> (delivery: Delivery<T>)
    ensures
        delivery is Empty ==> *final(receiver) == *old(receiver),
{
    match receiver.try_recv() {
        Ok(value) => Delivery::Value(value),
        Err(TryRecvError::Empty) => Delivery::Empty,
        Err(TryRecvError::Closed) => Delivery::Closed,
    }
}

} // verus!
