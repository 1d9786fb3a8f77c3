//! Board, move generator and rules-engine behaviour on concrete
//! positions. Squares are indexed 0-63, a1 = 0, h1 = 7, a8 = 56.

use backend::board::{initial_board, BitBoard};
use backend::movegen::{generate_legal_moves, is_legal_move, is_square_attacked};
use backend::rules::{apply, classify, position_sig, PositionSig};
use backend::types::{Castling, Color, Move, MoveResult, PieceKind};

fn plain(from: u8, to: u8) -> Move {
    Move {
        from,
        to,
        captures: None,
        castling: Castling::NoCastle,
        promotion: None,
        result: MoveResult::Continue,
    }
}

fn empty_board() -> BitBoard {
    BitBoard {
        n_white: 0,
        n_black: 0,
        n_pawn: 0,
        n_bishop: 0,
        n_knight: 0,
        n_rook: 0,
        n_queen: 0,
        n_king: 0,
        n_moved: 0,
        n_en_passant_target: 0,
    }
}

#[test]
fn initial_occupants() {
    let b = initial_board();
    assert_eq!(b.occupant_at(4), Some((Color::White, PieceKind::King)));
    assert_eq!(b.occupant_at(3), Some((Color::White, PieceKind::Queen)));
    assert_eq!(b.occupant_at(0), Some((Color::White, PieceKind::Rook)));
    assert_eq!(b.occupant_at(12), Some((Color::White, PieceKind::Pawn)));
    assert_eq!(b.occupant_at(60), Some((Color::Black, PieceKind::King)));
    assert_eq!(b.occupant_at(57), Some((Color::Black, PieceKind::Knight)));
    assert_eq!(b.occupant_at(28), None);
}

#[test]
fn initial_position_has_twenty_legal_moves() {
    let b = initial_board();
    let moves = generate_legal_moves(&b, Color::White);
    assert_eq!(moves.len(), 20);
    let black_moves = generate_legal_moves(&b, Color::Black);
    assert_eq!(black_moves.len(), 20);
}

#[test]
fn generated_moves_never_leave_own_king_attacked() {
    // A pinned knight may not move: white Ke1 and Ne2, with a black
    // rook on e7 pinning the knight along the e-file.
    let mut b = empty_board();
    b.n_white = (1 << 4) | (1 << 12); // Ke1, Ne2
    b.n_black = (1 << 60) | (1 << 52); // Ke8, Re7
    b.n_king = (1 << 4) | (1 << 60);
    b.n_knight = 1 << 12;
    b.n_rook = 1 << 52;
    let moves = generate_legal_moves(&b, Color::White);
    for m in moves.iter() {
        assert_ne!(m.from, 12, "the pinned knight must not move");
    }
}

#[test]
fn en_passant_only_on_the_following_ply() {
    let b = initial_board();
    // 1. e2e4 a7a6 2. e4e5 d7d5: the double push sets the target at d6.
    let b = apply(&b, Color::White, &plain(12, 28));
    let b = apply(&b, Color::Black, &plain(48, 40));
    let b = apply(&b, Color::White, &plain(28, 36));
    let b = apply(&b, Color::Black, &plain(51, 35));
    assert_eq!(b.n_en_passant_target, 1 << 43);
    let ep = Move {
        from: 36,
        to: 43,
        captures: Some(35),
        castling: Castling::NoCastle,
        promotion: None,
        result: MoveResult::Continue,
    };
    assert!(is_legal_move(&b, Color::White, &ep));
    let listed = generate_legal_moves(&b, Color::White);
    assert!(listed.iter().any(|m| m.from == 36 && m.to == 43 && m.captures == Some(35)));
    // After a quiet pair of moves the right expires.
    let b2 = apply(&b, Color::White, &plain(8, 16));
    assert_eq!(b2.n_en_passant_target, 0);
    let b2 = apply(&b2, Color::Black, &plain(40, 32));
    assert!(!is_legal_move(&b2, Color::White, &ep));
}

fn castle_position() -> BitBoard {
    // White Ke1 and Rh1 alone against the black king on a8.
    let mut b = empty_board();
    b.n_white = (1 << 4) | (1 << 7);
    b.n_black = 1 << 56;
    b.n_king = (1 << 4) | (1 << 56);
    b.n_rook = 1 << 7;
    b
}

fn kingside_castle() -> Move {
    Move {
        from: 4,
        to: 6,
        captures: None,
        castling: Castling::Kingside,
        promotion: None,
        result: MoveResult::Continue,
    }
}

#[test]
fn castling_allowed_when_safe_and_unmoved() {
    let b = castle_position();
    assert!(is_legal_move(&b, Color::White, &kingside_castle()));
    let after = apply(&b, Color::White, &kingside_castle());
    assert_eq!(after.occupant_at(6), Some((Color::White, PieceKind::King)));
    assert_eq!(after.occupant_at(5), Some((Color::White, PieceKind::Rook)));
    assert_eq!(after.occupant_at(4), None);
    assert_eq!(after.occupant_at(7), None);
}

#[test]
fn castling_rejected_when_transit_square_attacked() {
    let mut b = castle_position();
    // A black rook on f8 covers the king's transit square f1.
    b.n_black |= 1 << 61;
    b.n_rook |= 1 << 61;
    assert!(is_square_attacked(&b, Color::Black, 5));
    assert!(!is_legal_move(&b, Color::White, &kingside_castle()));
}

#[test]
fn castling_rejected_when_destination_attacked() {
    let mut b = castle_position();
    // A black rook on g8 covers the king's destination square g1.
    b.n_black |= 1 << 62;
    b.n_rook |= 1 << 62;
    assert!(!is_legal_move(&b, Color::White, &kingside_castle()));
}

#[test]
fn castling_rejected_when_start_square_attacked() {
    let mut b = castle_position();
    // A black rook on e8 gives check: castling out of check is refused.
    b.n_black |= 1 << 60;
    b.n_rook |= 1 << 60;
    assert!(!is_legal_move(&b, Color::White, &kingside_castle()));
}

#[test]
fn castling_rejected_after_either_participant_moved() {
    let mut b = castle_position();
    b.n_moved = 1 << 7; // the rook has moved before
    assert!(!is_legal_move(&b, Color::White, &kingside_castle()));
    let mut b = castle_position();
    b.n_moved = 1 << 4; // the king has moved before
    assert!(!is_legal_move(&b, Color::White, &kingside_castle()));
}

#[test]
fn half_move_planes_update_on_apply() {
    let b = initial_board();
    let after = apply(&b, Color::White, &plain(12, 28));
    assert_eq!(after.occupant_at(12), None);
    assert_eq!(after.occupant_at(28), Some((Color::White, PieceKind::Pawn)));
    assert_eq!(after.n_en_passant_target, 1 << 20);
    assert!(after.n_moved & (1 << 12) != 0);
}

#[test]
fn stalemate_with_two_knights_classified() {
    // Lone white king on a8; black king c7 and knights on b5 and g1:
    // white has no move and is not in check.
    let mut b = empty_board();
    b.n_white = 1 << 56;
    b.n_black = (1 << 50) | (1 << 33) | (1 << 6);
    b.n_king = (1 << 56) | (1 << 50);
    b.n_knight = (1 << 33) | (1 << 6);
    assert!(generate_legal_moves(&b, Color::White).is_empty());
    assert!(!b.is_in_check(Color::White));
    let history: Vec<PositionSig> = Vec::new();
    assert_eq!(classify(&b, Color::White, 7, &history), MoveResult::Stalemate);
}

#[test]
fn insufficient_material_classified() {
    // King against king and one bishop.
    let mut b = empty_board();
    b.n_white = 1 << 4;
    b.n_black = (1 << 60) | (1 << 58);
    b.n_king = (1 << 4) | (1 << 60);
    b.n_bishop = 1 << 58;
    let history: Vec<PositionSig> = Vec::new();
    assert_eq!(
        classify(&b, Color::White, 3, &history),
        MoveResult::InsufficientMaterial
    );
}

#[test]
fn move_count_limit_classified() {
    let b = initial_board();
    let history: Vec<PositionSig> = Vec::new();
    assert_eq!(classify(&b, Color::White, 100, &history), MoveResult::FiftyMoveRule);
    assert_eq!(classify(&b, Color::White, 99, &history), MoveResult::Continue);
}

#[test]
fn third_signature_occurrence_classified_as_repetition() {
    let b = initial_board();
    let sig = position_sig(&b, Color::White);
    let mut history: Vec<PositionSig> = Vec::new();
    history.push(sig);
    history.push(sig);
    assert_eq!(classify(&b, Color::White, 4, &history), MoveResult::Continue);
    history.push(sig);
    assert_eq!(classify(&b, Color::White, 4, &history), MoveResult::Repitition);
}

#[test]
fn promotion_enumerates_all_four_choices() {
    // A white pawn on a7 with the a8 corner free.
    let mut b = empty_board();
    b.n_white = (1 << 48) | (1 << 4);
    b.n_black = 1 << 62;
    b.n_king = (1 << 4) | (1 << 62);
    b.n_pawn = 1 << 48;
    let moves = generate_legal_moves(&b, Color::White);
    let promos: Vec<&Move> = moves.iter().filter(|m| m.from == 48 && m.to == 56).collect();
    assert_eq!(promos.len(), 4);
    for kind in [PieceKind::Knight, PieceKind::Bishop, PieceKind::Rook, PieceKind::Queen] {
        assert!(promos.iter().any(|m| m.promotion == Some(kind)));
    }
}
