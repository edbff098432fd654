//! The laws of the sequential preloader.
//!
//! Each law is stated of [`Cache`], the preloader as one value, and of the steps
//! that the module [`model`](crate::model) defines on it. A law that speaks of
//! "a preloader", of a load or of a read means such a value and such steps.

use crate::delivery::Delivery;
use crate::error::PreloaderError;
use crate::model::Cache;
use crate::parts::Parts;
use crate::read::Claim;
use crate::state::PreloaderState;
use tokio::sync::oneshot::Receiver;
use vstd::prelude::*;

verus! {

/// Every step leaves a preloader as a run can find it: a new preloader is
/// well-formed, and a load and a read keep it so.
pub proof fn steps_keep_well_formed<T>(
    cache: Cache<T>,
    receiver: Receiver<T>,
    locked: bool,
    delivery: Delivery<T>,
)
    requires
        cache.wf(),
    ensures
        Cache::<T>::fresh().wf(),
        cache.begin().wf(),
        cache.load(receiver).wf(),
        cache.state == PreloaderState::Start ==> cache.install(receiver).wf(),
        cache.read(delivery).0.wf(),
        cache.try_get(locked, delivery).0.wf(),
{
}

/// The lifecycle runs forwards, one state at a time: each step leaves the state as
/// it is or moves it to the state that follows. A load that wins passes through
/// `Start` on its way to `Loading`.
pub proof fn lifecycle_runs_forwards<T>(
    cache: Cache<T>,
    from: PreloaderState,
    receiver: Receiver<T>,
    delivery: Delivery<T>,
)
    requires
        cache.wf(),
    ensures
        cache.advance(from).state == cache.state || cache.state.precedes(
            cache.advance(from).state,
        ),
        cache.begin().state == cache.state || cache.state.precedes(cache.begin().state),
        cache.install(receiver).state == cache.state || cache.state.precedes(
            cache.install(receiver).state,
        ),
        cache.read(delivery).0.state == cache.state || cache.state.precedes(
            cache.read(delivery).0.state,
        ),
        cache.load(receiver).state.rank() >= cache.state.rank(),
        cache.accepts() ==> {
            &&& cache.begin().state == PreloaderState::Start
            &&& cache.load(receiver).state == PreloaderState::Loading
        },
{
}

/// The value is written once: a published value stays what it is through every
/// step.
pub proof fn value_is_written_once<T>(
    cache: Cache<T>,
    receiver: Receiver<T>,
    delivery: Delivery<T>,
)
    requires
        cache.value is Some,
    ensures
        cache.begin().value == cache.value,
        cache.install(receiver).value == cache.value,
        cache.load(receiver).value == cache.value,
        cache.complete(delivery).0.value == cache.value,
        cache.read(delivery).0.value == cache.value,
{
}

/// A new preloader is not loaded, and whatever the channel would give, a read of it
/// fails with `NotLoaded` and changes nothing.
pub proof fn new_preloader_is_not_loaded<T>(locked: bool, delivery: Delivery<T>)
    ensures
        !Cache::<T>::fresh().is_loaded(),
        Cache::<T>::fresh().read(delivery) == (
            Cache::<T>::fresh(),
            Err::<T, PreloaderError>(PreloaderError::NotLoaded),
        ),
        Cache::<T>::fresh().try_get(locked, delivery) == (
            Cache::<T>::fresh(),
            Err::<T, PreloaderError>(PreloaderError::NotLoaded),
        ),
{
}

/// Between the winning `load` and its `set_handle` a read still fails with
/// `NotLoaded`, and a further `load` does not win.
pub proof fn starting_reads_as_not_started<T>(cache: Cache<T>, locked: bool, delivery: Delivery<T>)
    requires
        cache.wf(),
        cache.accepts(),
    ensures
        !cache.begin().accepts(),
        !cache.begin().is_loaded(),
        cache.begin().try_get(locked, delivery) == (
            cache.begin(),
            Err::<T, PreloaderError>(PreloaderError::NotLoaded),
        ),
{
}

/// After a load, the read that finds the value `value` in the channel returns it
/// and leaves the preloader loaded; from then on every read returns the same value,
/// whatever the channel would give, and changes nothing.
/// The preloader is not loaded before that read.
pub proof fn loaded_value_is_served<T>(
    cache: Cache<T>,
    receiver: Receiver<T>,
    value: T,
    locked: bool,
    later: Delivery<T>,
)
    requires
        cache.wf(),
        cache.accepts(),
    ensures
        !cache.load(receiver).is_loaded(),
        cache.load(receiver).read(Delivery::Value(value)).1 == Ok::<T, PreloaderError>(value),
        cache.load(receiver).read(Delivery::Value(value)).0.is_loaded(),
        ({
            let loaded = cache.load(receiver).read(Delivery::Value(value)).0;
            &&& loaded.read(later) == (loaded, Ok::<T, PreloaderError>(value))
            &&& loaded.try_get(locked, later) == (loaded, Ok::<T, PreloaderError>(value))
        }),
{
}

/// A preloader becomes loaded by a read that drains the slot, and by nothing else:
/// a load never makes it loaded, and a read that does has found the value in the
/// channel and returns it.
pub proof fn loaded_only_by_a_drain<T>(
    cache: Cache<T>,
    receiver: Receiver<T>,
    locked: bool,
    delivery: Delivery<T>,
)
    requires
        cache.wf(),
        !cache.is_loaded(),
    ensures
        !cache.begin().is_loaded(),
        !cache.load(receiver).is_loaded(),
        cache.try_get(locked, delivery).0.is_loaded() ==> {
            &&& cache.slot is Some
            &&& locked
            &&& delivery is Value
            &&& cache.try_get(locked, delivery).1 == Ok::<T, PreloaderError>(delivery->0)
            &&& cache.try_get(locked, delivery).0.slot is None
        },
{
}

/// The first load wins and every later one changes nothing: the receiver in the
/// slot is the first load's, and the second load's receiver is nowhere. So the
/// first read that finds a value returns what the first load's channel gave.
pub proof fn first_load_wins<T>(
    cache: Cache<T>,
    first: Receiver<T>,
    second: Receiver<T>,
    delivery: Delivery<T>,
)
    requires
        cache.wf(),
        cache.accepts(),
    ensures
        cache.load(first).slot == Some(first),
        !cache.load(first).accepts(),
        cache.load(first).load(second) == cache.load(first),
        cache.load(first).load(second).read(delivery).1 == delivery.spec_settle(),
{
}

/// Once a load has won, none wins again: no step leads back to `Idle`.
pub proof fn started_stays_started<T>(
    cache: Cache<T>,
    receiver: Receiver<T>,
    deliveries: Seq<Delivery<T>>,
)
    requires
        cache.wf(),
        !cache.accepts(),
    ensures
        cache.load(receiver) == cache,
        cache.after(deliveries).wf(),
        !cache.after(deliveries).accepts(),
    decreases deliveries.len(),
{
    if deliveries.len() > 0 {
        started_stays_started(cache, receiver, deliveries.drop_last());
    }
}

/// Of the readers that queue at the lock while a load is under way, the first
/// drains the slot and every other is served what the first published. If the
/// first finds the value `value`, it returns it, and each of the reads that follow,
/// whatever the channel would give it, returns the same value and changes nothing.
pub proof fn one_drain_serves_all<T>(cache: Cache<T>, value: T, later: Seq<Delivery<T>>, i: int)
    requires
        cache.wf(),
        cache.state == PreloaderState::Loading,
        cache.slot is Some,
        0 <= i < later.len(),
    ensures
        cache.read(Delivery::Value(value)).1 == Ok::<T, PreloaderError>(value),
        cache.read(Delivery::Value(value)).0.slot is None,
        ({
            let drained = cache.read(Delivery::Value(value)).0;
            &&& drained.after(later) == drained
            &&& drained.after(later.take(i)) == drained
            &&& drained.after(later.take(i)).read(later[i]) == (
                drained,
                Ok::<T, PreloaderError>(value),
            )
        }),
{
    let drained = cache.read(Delivery::Value(value)).0;
    reads_of_a_loaded_preloader(drained, later);
    reads_of_a_loaded_preloader(drained, later.take(i));
}

/// Reads change nothing in a loaded preloader.
pub proof fn reads_of_a_loaded_preloader<T>(cache: Cache<T>, deliveries: Seq<Delivery<T>>)
    requires
        cache.is_loaded(),
    ensures
        cache.after(deliveries) == cache,
    decreases deliveries.len(),
{
    if deliveries.len() > 0 {
        reads_of_a_loaded_preloader(cache, deliveries.drop_last());
    }
}

/// While the load is under way and its value has not been sent, a poll answers
/// `Loading` and changes nothing, whether it gets the lock or not. No poll of a
/// load under way answers `NotLoaded`, and none returns a value but the one that
/// the channel gave to it. Once the value is sent, the next poll that gets the lock
/// returns it: no suspending read is needed before.
pub proof fn polling_a_load_under_way<T>(
    cache: Cache<T>,
    value: T,
    locked: bool,
    delivery: Delivery<T>,
)
    requires
        cache.wf(),
        cache.state == PreloaderState::Loading,
        cache.slot is Some,
    ensures
        cache.try_get(locked, Delivery::Empty) == (
            cache,
            Err::<T, PreloaderError>(PreloaderError::Loading),
        ),
        cache.try_get(false, delivery) == (cache, Err::<T, PreloaderError>(PreloaderError::Loading)),
        cache.try_get(locked, delivery).1 != Err::<T, PreloaderError>(PreloaderError::NotLoaded),
        cache.try_get(locked, delivery).1 is Ok ==> locked && delivery == Delivery::Value(
            cache.try_get(locked, delivery).1->Ok_0,
        ),
        cache.try_get(true, Delivery::Value(value)).1 == Ok::<T, PreloaderError>(value),
        cache.try_get(true, Delivery::Value(value)).0.is_loaded(),
{
}

/// A load that ends without a value is answered with `Loading` for ever: the read
/// that finds the channel closed empties the slot, and no later step brings a value
/// or another load.
pub proof fn lost_load_stays_lost<T>(
    cache: Cache<T>,
    receiver: Receiver<T>,
    locked: bool,
    later: Delivery<T>,
)
    requires
        cache.wf(),
        cache.state == PreloaderState::Loading,
        cache.slot is Some,
    ensures
        cache.read(Delivery::Closed).1 == Err::<T, PreloaderError>(PreloaderError::Loading),
        ({
            let lost = cache.read(Delivery::Closed).0;
            &&& lost.load(receiver) == lost
            &&& lost.try_get(locked, later) == (
                lost,
                Err::<T, PreloaderError>(PreloaderError::Loading),
            )
        }),
{
}

/// Of the readers that claim the slot in turn, only the first can be handed the
/// receiver. Each claim leaves the slot empty, so every reader after the first
/// finds it empty: it is handed nothing to drain, and it answers with a value or
/// with `Loading`. The first is handed the receiver if and only if one waits.
///
/// `slots[k]` is the slot as the claim `claims[k]` finds it, and `slots[k + 1]`
/// the slot as it leaves it.
pub proof fn one_claim_drains<V, T>(
    slots: Seq<Option<Receiver<T>>>,
    claims: Seq<Claim<V, T>>,
    later: int,
)
    requires
        slots.len() == claims.len() + 1,
        forall|k: int|
            0 <= k < claims.len() ==> (#[trigger] claims[k]).claims(slots[k], slots[k + 1]),
        1 <= later < claims.len(),
    ensures
        claims[0] is Receive <==> slots[0] is Some,
        claims[0] matches Claim::Receive(receiver) ==> slots[0] == Some(receiver),
        slots[later] is None,
        !(claims[later] is Receive),
        claims[later] matches Claim::Done(answer) && (answer is Ok || answer == Err::<
            V,
            PreloaderError,
        >(PreloaderError::Loading)),
{
    assert(claims[0].claims(slots[0], slots[1]));
    assert(claims[later - 1].claims(slots[later - 1], slots[later]));
    assert(claims[later].claims(slots[later], slots[later + 1]));
}

/// A reader that was sent to the slot reads the preloader as it is when the reader
/// gets the lock, however long that took: if the slot is empty by then, the second
/// step answers what a whole read would answer at that moment, and if a receiver
/// waits there, the load is still under way and the reader is the one to drain it.
pub proof fn late_reader_reads_now<T>(cache: Cache<T>, delivery: Delivery<T>)
    requires
        cache.wf(),
        cache.state.rank() >= PreloaderState::Loading.rank(),
    ensures
        match Claim::<T, T>::spec_of(cache.slot, cache.value) {
            Claim::Done(answer) => cache.read(delivery) == (cache, answer),
            Claim::Receive(receiver) => {
                &&& cache.slot == Some(receiver)
                &&& cache.state == PreloaderState::Loading
                &&& delivery.spent() ==> cache.read(delivery) == Cache {
                    slot: None,
                    ..cache
                }.complete(delivery)
            },
        },
{
}

/// Taking the value out of a preloader is its last read: what `Parts::take` answers
/// at once is what a read would answer, and where it hands out the receiver, that
/// is the receiver in the slot, whose last delivery settles into the answer of the
/// read.
pub proof fn take_is_the_last_read<T>(parts: Parts<T>, delivery: Delivery<T>)
    requires
        parts@.wf(),
        delivery.spent(),
    ensures
        match parts.spec_take() {
            Claim::Done(answer) => answer == parts@.read(delivery).1,
            Claim::Receive(receiver) => {
                &&& parts@.slot == Some(receiver)
                &&& parts@.read(delivery).1 == delivery.spec_settle()
            },
        },
{
}

} // verus!
