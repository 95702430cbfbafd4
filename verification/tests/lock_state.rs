use reedos::lock_state::LockState;
use reedos::lock_state::LOCKED;
use reedos::lock_state::UNLOCKED;

#[test]
fn words_of_the_two_states() {
    assert_eq!(UNLOCKED, 0);
    assert_eq!(LOCKED, 1);
    assert_eq!(LockState::Unlocked.word(), 0);
    assert_eq!(LockState::Locked.word(), 1);
}

#[test]
fn only_the_locked_word_reads_as_locked() {
    assert_eq!(LockState::from_word(0), LockState::Unlocked);
    assert_eq!(LockState::from_word(1), LockState::Locked);
    assert_eq!(LockState::from_word(2), LockState::Unlocked);
    assert_eq!(LockState::from_word(u32::MAX), LockState::Unlocked);
}

#[test]
fn attempt_wins_on_unlocked_only() {
    assert_eq!(LockState::Unlocked.acquire(), (LockState::Locked, true));
    assert_eq!(LockState::Locked.acquire(), (LockState::Locked, false));
}

#[test]
fn release_always_unlocks() {
    assert_eq!(LockState::Locked.release(), LockState::Unlocked);
    assert_eq!(LockState::Unlocked.release(), LockState::Unlocked);
}

#[test]
fn word_and_state_round_trip() {
    for state in [LockState::Unlocked, LockState::Locked] {
        assert_eq!(LockState::from_word(state.word()), state);
    }
}
