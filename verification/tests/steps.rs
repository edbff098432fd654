use preloader::Claim;
use preloader::Delivery;
use preloader::Parts;
use preloader::Preloader;
use preloader::PreloaderError;
use preloader::PreloaderState;
use preloader::Slot;
use preloader::Step;
use tokio::sync::oneshot;
use tokio::sync::oneshot::Receiver;
use tokio::sync::oneshot::Sender;

fn install<T>(preloader: &Preloader<T>, receiver: Receiver<T>) {
    let mut slot = preloader.slot().try_lock().unwrap();
    preloader.set_handle(&mut slot, receiver);
}

fn loading<T>() -> (Preloader<T>, Sender<T>) {
    let preloader = Preloader::new();
    assert!(preloader.load());
    let (tx, rx) = oneshot::channel();
    install(&preloader, rx);
    (preloader, tx)
}

#[test]
fn fresh_preloader_reads_not_loaded() {
    let preloader = Preloader::<String>::new();
    assert!(!preloader.is_loaded());
    assert_eq!(preloader.try_get(), Err(PreloaderError::NotLoaded));
    assert!(matches!(preloader.get(), Step::Done(Err(PreloaderError::NotLoaded))));
    assert!(!preloader.is_loaded());
    assert!(!preloader.slot().try_lock().unwrap().is_waiting());
}

#[test]
fn load_wins_once() {
    let preloader = Preloader::<u8>::new();
    assert!(preloader.load());
    assert!(!preloader.load());
    assert!(!preloader.load());
}

#[test]
fn load_does_not_win_after_the_value_is_served() {
    let (preloader, tx) = loading();
    assert!(!preloader.load());
    tx.send(1).unwrap();
    assert_eq!(preloader.try_get(), Ok(&1));
    assert!(!preloader.load());
}

#[test]
fn first_load_is_the_one_that_is_served() {
    let preloader = Preloader::new();
    let (first_tx, first_rx) = oneshot::channel();
    let (second_tx, second_rx) = oneshot::channel();

    if preloader.load() {
        install(&preloader, first_rx);
    }
    let second_won = preloader.load();
    if second_won {
        install(&preloader, second_rx);
    }
    assert!(!second_won);

    let _ = second_tx.send("second");
    assert_eq!(preloader.try_get(), Err(PreloaderError::Loading));
    first_tx.send("first").unwrap();
    assert_eq!(preloader.try_get(), Ok(&"first"));
}

#[test]
fn starting_reads_as_not_loaded() {
    let preloader = Preloader::<u8>::new();
    assert!(preloader.load());
    assert_eq!(preloader.try_get(), Err(PreloaderError::NotLoaded));
    assert!(matches!(preloader.get(), Step::Done(Err(PreloaderError::NotLoaded))));
    assert!(!preloader.is_loaded());
    let parts = preloader.into_parts();
    assert_eq!(parts.state, PreloaderState::Start);
}

#[test]
fn set_handle_moves_to_loading() {
    let (preloader, _tx) = loading::<u8>();
    assert!(preloader.slot().try_lock().unwrap().is_waiting());
    let parts = preloader.into_parts();
    assert_eq!(parts.state, PreloaderState::Loading);
    assert!(parts.slot.is_waiting());
    assert_eq!(parts.value, None);
}

#[test]
fn try_get_polls_until_the_value_is_sent() {
    let (preloader, tx) = loading();
    for _ in 0..3 {
        assert_eq!(preloader.try_get(), Err(PreloaderError::Loading));
        assert!(!preloader.is_loaded());
    }
    tx.send("X".to_string()).unwrap();
    assert!(!preloader.is_loaded());
    assert_eq!(preloader.try_get().unwrap(), "X");
    assert!(preloader.is_loaded());
}

#[test]
fn try_get_behind_a_held_lock_is_loading() {
    let (preloader, tx) = loading();
    tx.send(8).unwrap();
    {
        let _held = preloader.slot().try_lock().unwrap();
        assert_eq!(preloader.try_get(), Err(PreloaderError::Loading));
        assert!(!preloader.is_loaded());
    }
    assert_eq!(preloader.try_get(), Ok(&8));
}

#[test]
fn loaded_value_is_served_again_and_again() {
    let (preloader, tx) = loading();
    tx.send(vec![1, 2, 3]).unwrap();
    let first = preloader.try_get().unwrap();
    for _ in 0..4 {
        let again = preloader.try_get().unwrap();
        assert_eq!(again, &vec![1, 2, 3]);
        assert!(std::ptr::eq(first, again));
    }
    match preloader.get() {
        Step::Done(Ok(value)) => assert!(std::ptr::eq(first, value)),
        _ => panic!("the value was published"),
    }
    assert!(!preloader.slot().try_lock().unwrap().is_waiting());
}

#[test]
fn lost_load_stays_loading() {
    let (preloader, tx) = loading::<u8>();
    drop(tx);
    assert_eq!(preloader.try_get(), Err(PreloaderError::Loading));
    assert!(!preloader.slot().try_lock().unwrap().is_waiting());
    assert_eq!(preloader.try_get(), Err(PreloaderError::Loading));
    assert!(!preloader.load());
    assert!(!preloader.is_loaded());
    assert!(matches!(preloader.get(), Step::Lock));
    {
        let mut slot = preloader.slot().try_lock().unwrap();
        assert!(matches!(
            preloader.claim(&mut slot),
            Claim::Done(Err(PreloaderError::Loading))
        ));
    }
    assert!(matches!(preloader.take(), Claim::Done(Err(PreloaderError::Loading))));
}

#[test]
fn suspending_read_drains_in_three_steps() {
    let (preloader, tx) = loading();
    assert!(matches!(preloader.get(), Step::Lock));

    let mut slot = preloader.slot().try_lock().unwrap();
    let receiver = match preloader.claim(&mut slot) {
        Claim::Receive(receiver) => receiver,
        Claim::Done(_) => panic!("the receiver was in the slot"),
    };
    assert!(!slot.is_waiting());
    assert!(!preloader.is_loaded());

    tx.send("drained").unwrap();
    let delivery = Delivery::from_received(receiver.blocking_recv());
    assert_eq!(preloader.complete(delivery), Ok(&"drained"));
    assert!(preloader.is_loaded());
    drop(slot);

    assert!(matches!(preloader.get(), Step::Done(Ok(&"drained"))));
    assert_eq!(preloader.try_get(), Ok(&"drained"));
}

#[test]
fn reader_that_comes_late_to_the_slot_is_served() {
    let (preloader, tx) = loading();
    // Two readers are sent to the slot before either has the lock.
    assert!(matches!(preloader.get(), Step::Lock));
    assert!(matches!(preloader.get(), Step::Lock));

    let mut drains = 0;
    {
        let mut slot = preloader.slot().try_lock().unwrap();
        if let Claim::Receive(receiver) = preloader.claim(&mut slot) {
            drains += 1;
            tx.send(77).unwrap();
            let delivery = Delivery::from_received(receiver.blocking_recv());
            assert_eq!(preloader.complete(delivery), Ok(&77));
        }
    }
    {
        let mut slot = preloader.slot().try_lock().unwrap();
        match preloader.claim(&mut slot) {
            Claim::Receive(_) => drains += 1,
            Claim::Done(answer) => assert_eq!(answer, Ok(&77)),
        }
    }
    assert_eq!(drains, 1);
}

#[test]
fn complete_without_a_value_is_loading() {
    let (preloader, _tx) = loading::<u8>();
    assert_eq!(preloader.complete(Delivery::Closed), Err(PreloaderError::Loading));
    assert_eq!(preloader.complete(Delivery::Empty), Err(PreloaderError::Loading));
    assert!(!preloader.is_loaded());
    assert_eq!(preloader.into_parts().state, PreloaderState::Loading);
}

#[test]
fn published_value_is_never_replaced() {
    let (preloader, tx) = loading();
    tx.send(1).unwrap();
    assert_eq!(preloader.try_get(), Ok(&1));
    assert_eq!(preloader.complete(Delivery::Value(2)), Ok(&1));
    assert_eq!(preloader.try_get(), Ok(&1));
    let parts = preloader.into_parts();
    assert_eq!(parts.state, PreloaderState::Loaded);
    assert_eq!(parts.value, Some(1));
}

#[test]
fn into_parts_of_a_fresh_preloader() {
    let parts = Preloader::<u8>::new().into_parts();
    assert_eq!(parts.state, PreloaderState::Idle);
    assert!(!parts.slot.is_waiting());
    assert_eq!(parts.value, None);
}

#[test]
fn into_parts_of_a_loaded_preloader() {
    let (preloader, tx) = loading();
    tx.send("kept".to_string()).unwrap();
    preloader.try_get().unwrap();
    let parts = preloader.into_parts();
    assert_eq!(parts.state, PreloaderState::Loaded);
    assert!(!parts.slot.is_waiting());
    assert_eq!(parts.value, Some("kept".to_string()));
}

#[test]
fn take_of_a_fresh_preloader_is_not_loaded() {
    let preloader = Preloader::<String>::new();
    assert!(matches!(preloader.take(), Claim::Done(Err(PreloaderError::NotLoaded))));
}

#[test]
fn take_of_a_loaded_preloader_gives_the_value() {
    let (preloader, tx) = loading();
    tx.send("mine".to_string()).unwrap();
    preloader.try_get().unwrap();
    match preloader.take() {
        Claim::Done(answer) => assert_eq!(answer, Ok("mine".to_string())),
        Claim::Receive(_) => panic!("the slot was drained"),
    }
}

#[test]
fn take_while_loading_hands_out_the_receiver() {
    let (preloader, tx) = loading();
    let receiver = match preloader.take() {
        Claim::Receive(receiver) => receiver,
        Claim::Done(_) => panic!("nobody drained the slot"),
    };
    tx.send(31).unwrap();
    assert_eq!(Delivery::from_received(receiver.blocking_recv()).settle(), Ok(31));
}

#[test]
fn take_of_a_lost_load_is_loading() {
    let (preloader, tx) = loading::<u8>();
    drop(tx);
    let receiver = match preloader.take() {
        Claim::Receive(receiver) => receiver,
        Claim::Done(_) => panic!("nobody drained the slot"),
    };
    assert_eq!(
        Delivery::from_received(receiver.blocking_recv()).settle(),
        Err(PreloaderError::Loading)
    );
}

fn parts<T>(state: PreloaderState, receiver: Option<Receiver<T>>, value: Option<T>) -> Parts<T> {
    let mut slot = Slot::new();
    if let Some(receiver) = receiver {
        slot.install(receiver);
    }
    Parts { state, slot, value }
}

#[test]
fn parts_take_before_the_load_is_under_way() {
    for state in [PreloaderState::Idle, PreloaderState::Start] {
        let (_tx, rx) = oneshot::channel();
        assert!(matches!(
            parts(state, Some(rx), Some(1)).take(),
            Claim::Done(Err(PreloaderError::NotLoaded))
        ));
        assert!(matches!(
            parts::<u8>(state, None, None).take(),
            Claim::Done(Err(PreloaderError::NotLoaded))
        ));
    }
}

#[test]
fn parts_take_while_loading() {
    let (tx, rx) = oneshot::channel();
    tx.send(4).unwrap();
    match parts(PreloaderState::Loading, Some(rx), None).take() {
        Claim::Receive(receiver) => assert_eq!(receiver.blocking_recv(), Ok(4)),
        Claim::Done(_) => panic!("the receiver was in the slot"),
    }
    assert!(matches!(
        parts::<u8>(PreloaderState::Loading, None, None).take(),
        Claim::Done(Err(PreloaderError::Loading))
    ));
    assert!(matches!(
        parts(PreloaderState::Loading, None, Some(6)).take(),
        Claim::Done(Ok(6))
    ));
}

#[test]
fn parts_take_when_loaded() {
    assert!(matches!(parts(PreloaderState::Loaded, None, Some(6)).take(), Claim::Done(Ok(6))));
    assert!(matches!(
        parts::<u8>(PreloaderState::Loaded, None, None).take(),
        Claim::Done(Err(PreloaderError::Loading))
    ));
    let (_tx, rx) = oneshot::channel();
    assert!(matches!(
        parts(PreloaderState::Loaded, Some(rx), Some(6)).take(),
        Claim::Done(Ok(6))
    ));
}

#[test]
fn try_get_in_before_the_load_is_under_way_is_not_loaded() {
    let preloader = Preloader::<u8>::new();
    let seen = 5;
    for state in [PreloaderState::Idle, PreloaderState::Start] {
        assert_eq!(preloader.try_get_in(state, None), Err(PreloaderError::NotLoaded));
        assert_eq!(preloader.try_get_in(state, Some(&seen)), Err(PreloaderError::NotLoaded));
    }
}

#[test]
fn try_get_in_when_loaded_answers_from_the_cell() {
    let preloader = Preloader::<u8>::new();
    let seen = 5;
    assert_eq!(preloader.try_get_in(PreloaderState::Loaded, Some(&seen)), Ok(&5));
    assert_eq!(
        preloader.try_get_in(PreloaderState::Loaded, None),
        Err(PreloaderError::Loading)
    );
}

#[test]
fn try_get_in_while_loading_goes_to_the_slot() {
    let (preloader, tx) = loading();
    assert_eq!(
        preloader.try_get_in(PreloaderState::Loading, None),
        Err(PreloaderError::Loading)
    );
    assert!(preloader.slot().try_lock().unwrap().is_waiting());
    {
        let _held = preloader.slot().try_lock().unwrap();
        assert_eq!(
            preloader.try_get_in(PreloaderState::Loading, None),
            Err(PreloaderError::Loading)
        );
    }
    tx.send(9).unwrap();
    assert_eq!(preloader.try_get_in(PreloaderState::Loading, None), Ok(&9));
    assert!(!preloader.slot().try_lock().unwrap().is_waiting());
    assert_eq!(preloader.try_get_in(PreloaderState::Loading, None), Ok(&9));
}

#[test]
fn poll_slot_of_an_empty_channel_consumes_nothing() {
    let (preloader, tx) = loading();
    let mut slot = preloader.slot().try_lock().unwrap();
    for _ in 0..3 {
        assert_eq!(preloader.poll_slot(&mut slot), Err(PreloaderError::Loading));
        assert!(slot.is_waiting());
        assert!(!preloader.is_loaded());
    }
    tx.send("late").unwrap();
    assert_eq!(preloader.poll_slot(&mut slot), Ok(&"late"));
    assert!(!slot.is_waiting());
    assert!(preloader.is_loaded());
    assert_eq!(preloader.poll_slot(&mut slot), Ok(&"late"));
    assert!(!slot.is_waiting());
}

#[test]
fn poll_slot_of_a_closed_channel_is_loading_for_ever() {
    let (preloader, tx) = loading::<u8>();
    drop(tx);
    let mut slot = preloader.slot().try_lock().unwrap();
    assert_eq!(preloader.poll_slot(&mut slot), Err(PreloaderError::Loading));
    assert!(!slot.is_waiting());
    for _ in 0..3 {
        assert_eq!(preloader.poll_slot(&mut slot), Err(PreloaderError::Loading));
        assert!(!slot.is_waiting());
    }
    assert!(!preloader.is_loaded());
}

#[test]
fn answer_polled_table() {
    let (preloader, _tx) = loading();
    assert_eq!(preloader.answer_polled(None), Err(PreloaderError::Loading));
    assert_eq!(
        preloader.answer_polled(Some(Delivery::Empty)),
        Err(PreloaderError::Loading)
    );
    assert_eq!(
        preloader.answer_polled(Some(Delivery::Closed)),
        Err(PreloaderError::Loading)
    );
    assert!(!preloader.is_loaded());
    assert_eq!(preloader.answer_polled(Some(Delivery::Value(3))), Ok(&3));
    assert!(preloader.is_loaded());
    assert_eq!(preloader.answer_polled(None), Ok(&3));
    assert_eq!(
        preloader.answer_polled(Some(Delivery::Empty)),
        Err(PreloaderError::Loading)
    );
}

#[test]
fn claim_of_an_empty_slot_is_a_value_or_loading() {
    let (preloader, tx) = loading();
    let mut empty = Slot::new();
    assert!(matches!(
        preloader.claim(&mut empty),
        Claim::Done(Err(PreloaderError::Loading))
    ));
    tx.send(4).unwrap();
    assert_eq!(preloader.try_get(), Ok(&4));
    assert!(matches!(preloader.claim(&mut empty), Claim::Done(Ok(&4))));
    assert!(!empty.is_waiting());
}
