//! Match-session flows: turn order, clocks, draw offers, resignation,
//! timeout, and the scholar's-mate sequence ending in checkmate.

use backend::board::BitBoard;
use backend::rules::position_sig;
use backend::session::{GameOutcome, MatchSession, SessionError, SessionState};
use backend::types::{Castling, Clock, Color, Move, MoveResult, PieceKind, TimeControl};

fn control() -> TimeControl {
    TimeControl { start: 60_000, increment: 0, delay: 0 }
}

fn request(from: u8, to: u8) -> Move {
    Move {
        from,
        to,
        captures: None,
        castling: Castling::NoCastle,
        promotion: None,
        result: MoveResult::Continue,
    }
}

fn is_finished(s: &MatchSession, outcome: GameOutcome, winner: Option<Color>) -> bool {
    matches!(s.state, SessionState::Finished(o, w) if o == outcome && w == winner)
}

#[test]
fn scholars_mate_ends_in_checkmate_for_white() {
    let mut s = MatchSession::new(control());
    let plies = [
        (Color::White, 12u8, 28u8), // e2e4
        (Color::Black, 52, 36),     // e7e5
        (Color::White, 5, 26),      // f1c4
        (Color::Black, 57, 42),     // b8c6
        (Color::White, 3, 39),      // d1h5
        (Color::Black, 62, 45),     // g8f6
    ];
    for (side, from, to) in plies {
        let done = s.handle_move(side, &request(from, to), 0).unwrap();
        assert_eq!(done.result, MoveResult::Continue);
    }
    // h5f7 delivers mate; the inbound outcome tag is ignored.
    let mut lying = request(39, 53);
    lying.result = MoveResult::Stalemate;
    let done = s.handle_move(Color::White, &lying, 0).unwrap();
    assert_eq!(done.result, MoveResult::Checkmate);
    assert_eq!(done.captures, Some(53));
    assert!(is_finished(&s, GameOutcome::Checkmate, Some(Color::White)));
}

#[test]
fn half_move_clock_resets_on_pawn_moves_and_captures() {
    let mut s = MatchSession::new(control());
    s.handle_move(Color::White, &request(6, 21), 0).unwrap(); // g1f3
    assert_eq!(s.halfmove, 1);
    s.handle_move(Color::Black, &request(57, 42), 0).unwrap(); // b8c6
    assert_eq!(s.halfmove, 2);
    s.handle_move(Color::White, &request(12, 28), 0).unwrap(); // e2e4, pawn
    assert_eq!(s.halfmove, 0);
    s.handle_move(Color::Black, &request(42, 27), 0).unwrap(); // c6d4
    assert_eq!(s.halfmove, 1);
    s.handle_move(Color::White, &request(21, 27), 0).unwrap(); // f3xd4
    assert_eq!(s.halfmove, 0);
}

#[test]
fn wrong_turn_and_illegal_moves_are_rejected_without_state_change() {
    let mut s = MatchSession::new(control());
    assert_eq!(
        s.handle_move(Color::Black, &request(52, 36), 0).unwrap_err(),
        SessionError::WrongTurn
    );
    assert_eq!(
        s.handle_move(Color::White, &request(12, 29), 0).unwrap_err(),
        SessionError::IllegalMove
    );
    assert_eq!(s.halfmove, 0);
    assert!(matches!(s.state, SessionState::AwaitingMove));
    assert_eq!(s.to_move, Color::White);
    // The board is untouched: the opening move still works.
    let done = s.handle_move(Color::White, &request(12, 28), 0).unwrap();
    assert_eq!(done.result, MoveResult::Continue);
}

#[test]
fn resignation_finishes_at_once_and_blocks_further_packets() {
    let mut s = MatchSession::new(control());
    s.handle_move(Color::White, &request(12, 28), 0).unwrap();
    assert_eq!(s.resign(Color::Black), Ok(()));
    assert!(is_finished(&s, GameOutcome::Resignation, Some(Color::White)));
    assert_eq!(
        s.handle_move(Color::White, &request(3, 39), 0).unwrap_err(),
        SessionError::MatchFinished
    );
    assert_eq!(
        s.handle_move(Color::Black, &request(52, 36), 0).unwrap_err(),
        SessionError::MatchFinished
    );
    assert_eq!(s.resign(Color::White), Err(SessionError::MatchFinished));
    assert_eq!(s.offer_draw(Color::White), Err(SessionError::MatchFinished));
    assert_eq!(s.accept_draw(Color::White), Err(SessionError::MatchFinished));
    assert!(is_finished(&s, GameOutcome::Resignation, Some(Color::White)));
}

#[test]
fn draw_offer_accept_finishes_as_draw() {
    let mut s = MatchSession::new(control());
    assert_eq!(s.offer_draw(Color::White), Ok(()));
    assert!(matches!(s.state, SessionState::DrawOffered(Color::White)));
    // The offering side cannot accept its own offer.
    assert_eq!(s.accept_draw(Color::White), Err(SessionError::NoPendingOffer));
    assert_eq!(s.accept_draw(Color::Black), Ok(()));
    assert!(is_finished(&s, GameOutcome::DrawAgreement, None));
}

#[test]
fn draw_offer_decline_returns_to_awaiting_move() {
    let mut s = MatchSession::new(control());
    assert_eq!(s.offer_draw(Color::White), Ok(()));
    // A move while the offer is pending is rejected.
    assert_eq!(
        s.handle_move(Color::White, &request(12, 28), 0).unwrap_err(),
        SessionError::OfferPending
    );
    assert_eq!(s.decline_draw(Color::Black), Ok(()));
    assert!(matches!(s.state, SessionState::AwaitingMove));
    assert_eq!(s.to_move, Color::White);
    assert!(s.handle_move(Color::White, &request(12, 28), 0).is_ok());
}

#[test]
fn accept_without_pending_offer_is_rejected() {
    let mut s = MatchSession::new(control());
    assert_eq!(s.accept_draw(Color::Black), Err(SessionError::NoPendingOffer));
    assert_eq!(s.decline_draw(Color::Black), Err(SessionError::NoPendingOffer));
}

#[test]
fn clock_exhaustion_fires_timeout_without_input() {
    let mut s = MatchSession::new(TimeControl { start: 60, increment: 0, delay: 0 });
    assert!(!s.check_timeout(59));
    assert!(matches!(s.state, SessionState::AwaitingMove));
    assert!(s.check_timeout(60));
    assert!(is_finished(&s, GameOutcome::Timeout, Some(Color::Black)));
    assert_eq!(s.clock.white, 0);
    // The stale timer on a finished session does nothing.
    assert!(!s.check_timeout(1000));
    assert!(is_finished(&s, GameOutcome::Timeout, Some(Color::Black)));
}

#[test]
fn late_move_times_out_the_mover() {
    let mut s = MatchSession::new(TimeControl { start: 60, increment: 0, delay: 0 });
    assert_eq!(
        s.handle_move(Color::White, &request(12, 28), 60).unwrap_err(),
        SessionError::ClockExpired
    );
    assert!(is_finished(&s, GameOutcome::Timeout, Some(Color::Black)));
}

#[test]
fn delay_grants_a_grace_window_and_increment_credits_the_mover() {
    let mut s = MatchSession::new(TimeControl { start: 100, increment: 5, delay: 10 });
    // 30 elapsed with 10 delay charges 20; the increment then adds 5.
    s.handle_move(Color::White, &request(12, 28), 30).unwrap();
    assert_eq!(s.clock.white, 85);
    assert_eq!(s.clock.black, 100);
    // Fully inside the delay window nothing is charged.
    s.handle_move(Color::Black, &request(52, 36), 10).unwrap();
    assert_eq!(s.clock.black, 105);
}

#[test]
fn promotion_request_must_name_the_choice() {
    // White pawn on a7 about to promote; kings on e1 and g8.
    let board = BitBoard {
        n_white: (1 << 48) | (1 << 4),
        n_black: 1 << 62,
        n_pawn: 1 << 48,
        n_bishop: 0,
        n_knight: 0,
        n_rook: 0,
        n_queen: 0,
        n_king: (1 << 4) | (1 << 62),
        n_moved: 0,
        n_en_passant_target: 0,
    };
    let mut history = Vec::new();
    history.push(position_sig(&board, Color::White));
    let mut s = MatchSession {
        board,
        to_move: Color::White,
        halfmove: 0,
        history,
        clock: Clock { white: 1000, black: 1000 },
        control: control(),
        state: SessionState::AwaitingMove,
    };
    // The bare push is not in the legal set: promotion must be chosen.
    assert_eq!(
        s.handle_move(Color::White, &request(48, 56), 0).unwrap_err(),
        SessionError::IllegalMove
    );
    let mut promote = request(48, 56);
    promote.promotion = Some(PieceKind::Queen);
    let done = s.handle_move(Color::White, &promote, 0).unwrap();
    assert_eq!(done.promotion, Some(PieceKind::Queen));
    assert_eq!(
        s.board.occupant_at(56),
        Some((Color::White, PieceKind::Queen))
    );
}

#[test]
fn repetition_draw_after_third_occurrence() {
    let mut s = MatchSession::new(control());
    let shuffle = [
        (Color::White, 6u8, 21u8),
        (Color::Black, 62, 45),
        (Color::White, 21, 6),
        (Color::Black, 45, 62),
    ];
    for (side, from, to) in shuffle {
        let done = s.handle_move(side, &request(from, to), 0).unwrap();
        assert_eq!(done.result, MoveResult::Continue);
    }
    for (i, (side, from, to)) in shuffle.iter().enumerate() {
        let done = s.handle_move(*side, &request(*from, *to), 0).unwrap();
        if i < 3 {
            assert_eq!(done.result, MoveResult::Continue);
        } else {
            // The initial signature now stands for the third time.
            assert_eq!(done.result, MoveResult::Repitition);
        }
    }
    assert!(is_finished(&s, GameOutcome::Repetition, None));
}
