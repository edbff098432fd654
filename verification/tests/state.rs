use preloader::Access;
use preloader::PreloaderError;
use preloader::PreloaderState;

const STATES: [PreloaderState; 4] = [
    PreloaderState::Idle,
    PreloaderState::Start,
    PreloaderState::Loading,
    PreloaderState::Loaded,
];

#[test]
fn state_code_is_rank() {
    assert_eq!(PreloaderState::Idle.code(), 0);
    assert_eq!(PreloaderState::Start.code(), 1);
    assert_eq!(PreloaderState::Loading.code(), 2);
    assert_eq!(PreloaderState::Loaded.code(), 3);
}

#[test]
fn state_from_code_inverts_code() {
    for state in STATES {
        assert_eq!(PreloaderState::from_code(state.code()), state);
    }
}

#[test]
fn state_from_code_saturates() {
    assert_eq!(PreloaderState::from_code(3), PreloaderState::Loaded);
    assert_eq!(PreloaderState::from_code(4), PreloaderState::Loaded);
    assert_eq!(PreloaderState::from_code(255), PreloaderState::Loaded);
}

#[test]
fn state_access_table() {
    assert_eq!(PreloaderState::Idle.access(), Access::NotStarted);
    assert_eq!(PreloaderState::Start.access(), Access::NotStarted);
    assert_eq!(PreloaderState::Loading.access(), Access::Pending);
    assert_eq!(PreloaderState::Loaded.access(), Access::Ready);
}

#[test]
fn state_next_walks_lifecycle() {
    assert_eq!(PreloaderState::Idle.next(), Some(PreloaderState::Start));
    assert_eq!(PreloaderState::Start.next(), Some(PreloaderState::Loading));
    assert_eq!(PreloaderState::Loading.next(), Some(PreloaderState::Loaded));
    assert_eq!(PreloaderState::Loaded.next(), None);
}

#[test]
fn state_next_is_one_code_further() {
    for state in STATES {
        if let Some(next) = state.next() {
            assert_eq!(next.code(), state.code() + 1);
        }
    }
}

#[test]
fn state_is_loaded_only_when_loaded() {
    assert!(!PreloaderState::Idle.is_loaded());
    assert!(!PreloaderState::Start.is_loaded());
    assert!(!PreloaderState::Loading.is_loaded());
    assert!(PreloaderState::Loaded.is_loaded());
}

#[test]
fn error_message_texts() {
    assert_eq!(PreloaderError::NotLoaded.message(), "Preloader is not loaded");
    assert_eq!(PreloaderError::Loading.message(), "Preloader is loading");
}
