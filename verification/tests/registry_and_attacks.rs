//! The session registry boundary and the attack-set view of the board.

use backend::board::initial_board;
use backend::registry::{RegistryError, SessionRegistry};
use backend::session::MatchSession;
use backend::types::{Color, TimeControl};

fn control() -> TimeControl {
    TimeControl { start: 1000, increment: 0, delay: 0 }
}

#[test]
fn registry_insert_take_put_round_trip() {
    let mut reg = SessionRegistry::new();
    assert!(!reg.contains(7));
    assert_eq!(reg.insert(7, MatchSession::new(control())), Ok(()));
    assert!(reg.contains(7));
    assert_eq!(
        reg.insert(7, MatchSession::new(control())),
        Err(RegistryError::DuplicateMatch)
    );
    let s = reg.take(7).unwrap();
    assert!(!reg.contains(7));
    assert_eq!(reg.put(7, s), Ok(()));
    assert!(reg.contains(7));
}

#[test]
fn unknown_match_is_a_reported_miss() {
    let mut reg = SessionRegistry::new();
    reg.insert(1, MatchSession::new(control())).unwrap();
    match reg.take(2) {
        Err(e) => assert_eq!(e, RegistryError::UnknownMatch),
        Ok(_) => panic!("expected a miss"),
    }
    assert!(reg.contains(1));
}

#[test]
fn initial_attack_sets() {
    let b = initial_board();
    let white = b.attack_set_for(Color::White);
    // Every square of the third rank is covered by a pawn or knight.
    for sq in 16..24u32 {
        assert!(white & (1u64 << sq) != 0, "square {} should be attacked", sq);
    }
    // The d2 pawn square is defended; the e4 square is reached by nobody.
    assert!(white & (1 << 11) != 0);
    assert!(white & (1 << 28) == 0);
    let black = b.attack_set_for(Color::Black);
    for sq in 40..48u32 {
        assert!(black & (1u64 << sq) != 0);
    }
    // Neither king starts in check.
    assert!(!b.is_in_check(Color::White));
    assert!(!b.is_in_check(Color::Black));
}
