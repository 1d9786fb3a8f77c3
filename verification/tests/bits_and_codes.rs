//! The bit-plane utility and the fixed wire encodings.

use backend::bits::BitManipulatable;
use backend::types::{
    castling_code, castling_from_code, color_code, color_from_code, outcome_code,
    outcome_from_code, Castling, Color, MoveResult,
};

#[test]
fn get_bits_expands_every_bit() {
    let w: u64 = (1 << 0) | (1 << 7) | (1 << 63);
    let bits = w.get_bits();
    assert_eq!(bits.len(), 64);
    for (i, bit) in bits.iter().enumerate() {
        assert_eq!(*bit, i == 0 || i == 7 || i == 63);
    }
}

#[test]
fn get_bit_reads_single_bits() {
    let w: u64 = 0b1010;
    assert!(!w.get_bit(0));
    assert!(w.get_bit(1));
    assert!(!w.get_bit(2));
    assert!(w.get_bit(3));
    assert!(!w.get_bit(63));
}

#[test]
fn set_bit_and_clear_bit_round_trip() {
    let mut w: u64 = 0;
    w.set_bit(5);
    assert_eq!(w, 32);
    w.set_bit(5);
    assert_eq!(w, 32);
    w.set_bit(0);
    assert_eq!(w, 33);
    w.clear_bit(5);
    assert_eq!(w, 1);
    w.clear_bit(63);
    assert_eq!(w, 1);
    w.clear_bit(0);
    assert_eq!(w, 0);
}

#[test]
fn outcome_codes_are_fixed_and_round_trip() {
    let all = [
        (MoveResult::Continue, 0u8),
        (MoveResult::Checkmate, 1),
        (MoveResult::Stalemate, 2),
        (MoveResult::Repitition, 3),
        (MoveResult::InsufficientMaterial, 4),
        (MoveResult::FiftyMoveRule, 5),
    ];
    for (v, c) in all {
        assert_eq!(outcome_code(v), c);
        assert_eq!(outcome_from_code(c), Some(v));
    }
    assert_eq!(outcome_from_code(6), None);
}

#[test]
fn castling_codes_are_fixed_and_round_trip() {
    let all = [
        (Castling::NoCastle, 0u8),
        (Castling::Kingside, 1),
        (Castling::Queenside, 2),
    ];
    for (v, c) in all {
        assert_eq!(castling_code(v), c);
        assert_eq!(castling_from_code(c), Some(v));
    }
    assert_eq!(castling_from_code(3), None);
}

#[test]
fn side_codes_are_fixed_and_round_trip() {
    assert_eq!(color_code(Color::White), 1);
    assert_eq!(color_code(Color::Black), 0);
    assert_eq!(color_from_code(1), Some(Color::White));
    assert_eq!(color_from_code(0), Some(Color::Black));
    assert_eq!(color_from_code(2), None);
}
