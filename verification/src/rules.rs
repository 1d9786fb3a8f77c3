//! The rules engine: applying a chosen move to a board as a pure
//! transform, and classifying terminal outcomes.

use vstd::prelude::*;
use crate::bits::{bit64, testbit};
use crate::board::{BitBoard, at_most_one_bit};
use crate::movegen::{bitsq, in_check, king_home, legal, pseudo_legal, generate_legal_moves};
use crate::types::{Castling, Color, Move, MoveResult, PieceKind};

verus! {

broadcast use crate::bits::lemma_bit_or, crate::bits::lemma_bit_and, crate::bits::lemma_bit_not,
    crate::bits::lemma_bit_single, crate::bits::lemma_bit_zero;

/// The plane holding only square `sq`. Meaningful for `0 <= sq < 64`.
pub open spec fn mask_sq(sq: int) -> u64 {
    1u64 << (sq as u64)
}

pub open spec fn cap_mask(m: Move) -> u64 {
    match m.captures {
        Some(c) => mask_sq(c as int),
        None => 0u64,
    }
}

/// The rook's origin square for a castling move.
pub open spec fn castle_rook_from(m: Move) -> int {
    match m.castling {
        Castling::Kingside => m.from as int + 3,
        Castling::Queenside => m.from as int - 4,
        Castling::NoCastle => m.from as int,
    }
}

/// The rook's destination square for a castling move.
pub open spec fn castle_rook_to(m: Move) -> int {
    match m.castling {
        Castling::Kingside => m.from as int + 1,
        Castling::Queenside => m.from as int - 1,
        Castling::NoCastle => m.from as int,
    }
}

/// A qualifying double pawn push: a pawn moving exactly two ranks.
pub open spec fn is_double_push(b: BitBoard, m: Move) -> bool {
    &&& b.kind_at(m.from as u64) == Some(PieceKind::Pawn)
    &&& (m.to as int - m.from as int == 16 || m.from as int - m.to as int == 16)
}

/// The en-passant-target plane after a move: the jumped-over square
/// immediately after a qualifying double push, cleared on every other
/// move.
pub open spec fn ep_target_after(b: BitBoard, m: Move) -> u64 {
    if is_double_push(b, m) {
        mask_sq((m.from as int + m.to as int) / 2)
    } else {
        0u64
    }
}

/// The half-move clock resets on any capture or pawn move.
pub open spec fn resets_clock(b: BitBoard, m: Move) -> bool {
    b.kind_at(m.from as u64) == Some(PieceKind::Pawn) || m.captures is Some
}

/// Square bounds a move's fields must satisfy before its masks make
/// sense; implied by pseudo-legality.
pub open spec fn move_in_range(m: Move) -> bool {
    &&& m.from < 64
    &&& m.to < 64
    &&& (m.captures matches Some(c) ==> c < 64)
    &&& (m.castling == Castling::Kingside ==> m.from < 61)
    &&& (m.castling == Castling::Queenside ==> m.from >= 4)
}

/// The board after a move: the moved piece is relocated (or replaced by
/// the promotion choice), a captured piece is removed (including the
/// displaced-pawn square for en-passant), the rook is relocated for
/// castling, the has-moved plane gains the squares involved, and the
/// en-passant-target plane is set only after a qualifying double push.
/// A move whose origin holds no piece leaves the board unchanged.
pub open spec fn apply_spec(b: BitBoard, stm: Color, m: Move) -> BitBoard {
    match b.kind_at(m.from as u64) {
        None => b,
        Some(k) => {
            let from = m.from as int;
            let to = m.to as int;
            let placed = match (k, m.promotion) {
                (PieceKind::Pawn, Some(p)) => p,
                _ => k,
            };
            let castle = m.castling != Castling::NoCastle;
            let rf = castle_rook_from(m);
            let rt = castle_rook_to(m);
            let cm = mask_sq(from) | cap_mask(m) | mask_sq(to) | (if castle {
                mask_sq(rf)
            } else {
                0u64
            });
            let place_color = mask_sq(to) | (if castle {
                mask_sq(rt)
            } else {
                0u64
            });
            BitBoard {
                n_white: (b.n_white & !cm) | (if stm == Color::White {
                    place_color
                } else {
                    0u64
                }),
                n_black: (b.n_black & !cm) | (if stm == Color::Black {
                    place_color
                } else {
                    0u64
                }),
                n_pawn: (b.n_pawn & !cm) | (if placed == PieceKind::Pawn {
                    mask_sq(to)
                } else {
                    0u64
                }),
                n_knight: (b.n_knight & !cm) | (if placed == PieceKind::Knight {
                    mask_sq(to)
                } else {
                    0u64
                }),
                n_bishop: (b.n_bishop & !cm) | (if placed == PieceKind::Bishop {
                    mask_sq(to)
                } else {
                    0u64
                }),
                n_rook: (b.n_rook & !cm) | (if placed == PieceKind::Rook {
                    mask_sq(to)
                } else {
                    0u64
                }) | (if castle {
                    mask_sq(rt)
                } else {
                    0u64
                }),
                n_queen: (b.n_queen & !cm) | (if placed == PieceKind::Queen {
                    mask_sq(to)
                } else {
                    0u64
                }),
                n_king: (b.n_king & !cm) | (if placed == PieceKind::King {
                    mask_sq(to)
                } else {
                    0u64
                }),
                n_moved: b.n_moved | mask_sq(from) | mask_sq(to) | (if castle {
                    mask_sq(rf) | mask_sq(rt)
                } else {
                    0u64
                }),
                n_en_passant_target: ep_target_after(b, m),
            }
        },
    }
}

/// A well-formed board stays well formed under any pseudo-legal move:
/// color planes stay disjoint and every occupied square keeps exactly
/// one color and one piece type.
pub proof fn lemma_apply_preserves_wf(b: BitBoard, stm: Color, m: Move)
    requires
        b.wf(),
        pseudo_legal(b, stm, m),
    ensures
        apply_spec(b, stm, m).wf(),
{
    let a = apply_spec(b, stm, m);
    crate::movegen::lemma_pseudo_legal_in_range(b, stm, m);
    assert forall|i: u64| i < 64 implies a.square_ok(i) by {
        assert(b.square_ok(i));
    }
    if is_double_push(b, m) {
        let mid = (m.from as int + m.to as int) / 2;
        assert(0 <= mid < 64);
        assert(a.n_en_passant_target == mask_sq(mid));
        assert(a.n_en_passant_target == 1u64 << (mid as u64));
    }
}

/// Applies a move to a board, a pure transform: the caller owns the
/// returned snapshot, the argument is not mutated.
pub fn apply(b: &BitBoard, stm: Color, m: &Move) -> (r: BitBoard)
    requires
        move_in_range(*m),
    ensures
        r == apply_spec(*b, stm, *m),
{
    let from = m.from;
    let to = m.to;
    let kind = if testbit(b.n_pawn, from) {
        Some(PieceKind::Pawn)
    } else if testbit(b.n_knight, from) {
        Some(PieceKind::Knight)
    } else if testbit(b.n_bishop, from) {
        Some(PieceKind::Bishop)
    } else if testbit(b.n_rook, from) {
        Some(PieceKind::Rook)
    } else if testbit(b.n_queen, from) {
        Some(PieceKind::Queen)
    } else if testbit(b.n_king, from) {
        Some(PieceKind::King)
    } else {
        None
    };
    let k = match kind {
        None => {
            return *b;
        },
        Some(k) => k,
    };
    let placed = match (k, m.promotion) {
        (PieceKind::Pawn, Some(p)) => p,
        _ => k,
    };
    let castle = m.castling != Castling::NoCastle;
    let rf: u8 = match m.castling {
        Castling::Kingside => from + 3,
        Castling::Queenside => from - 4,
        Castling::NoCastle => from,
    };
    let rt: u8 = match m.castling {
        Castling::Kingside => from + 1,
        Castling::Queenside => from - 1,
        Castling::NoCastle => from,
    };
    let capm: u64 = match m.captures {
        Some(c) => 1u64 << (c as u64),
        None => 0u64,
    };
    let cm: u64 = (1u64 << (from as u64)) | capm | (1u64 << (to as u64)) | (if castle {
        1u64 << (rf as u64)
    } else {
        0u64
    });
    let place_color: u64 = (1u64 << (to as u64)) | (if castle {
        1u64 << (rt as u64)
    } else {
        0u64
    });
    let to_mask: u64 = 1u64 << (to as u64);
    let double_push = k == PieceKind::Pawn && (to == from + 16 || from == to + 16);
    let ep: u64 = if double_push {
        1u64 << (((from as u64) + (to as u64)) / 2)
    } else {
        0u64
    };
    BitBoard {
        n_white: (b.n_white & !cm) | (if stm == Color::White {
            place_color
        } else {
            0u64
        }),
        n_black: (b.n_black & !cm) | (if stm == Color::Black {
            place_color
        } else {
            0u64
        }),
        n_pawn: (b.n_pawn & !cm) | (if placed == PieceKind::Pawn {
            to_mask
        } else {
            0u64
        }),
        n_knight: (b.n_knight & !cm) | (if placed == PieceKind::Knight {
            to_mask
        } else {
            0u64
        }),
        n_bishop: (b.n_bishop & !cm) | (if placed == PieceKind::Bishop {
            to_mask
        } else {
            0u64
        }),
        n_rook: (b.n_rook & !cm) | (if placed == PieceKind::Rook {
            to_mask
        } else {
            0u64
        }) | (if castle {
            1u64 << (rt as u64)
        } else {
            0u64
        }),
        n_queen: (b.n_queen & !cm) | (if placed == PieceKind::Queen {
            to_mask
        } else {
            0u64
        }),
        n_king: (b.n_king & !cm) | (if placed == PieceKind::King {
            to_mask
        } else {
            0u64
        }),
        n_moved: b.n_moved | (1u64 << (from as u64)) | (1u64 << (to as u64)) | (if castle {
            (1u64 << (rf as u64)) | (1u64 << (rt as u64))
        } else {
            0u64
        }),
        n_en_passant_target: ep,
    }
}

/// Position signature for repetition detection: piece placement, side
/// to move, the four castling rights, and the en-passant target.
#[derive(Clone, Copy, Debug, PartialEq, Eq, Structural)]
pub struct PositionSig {
    pub white: u64,
    pub black: u64,
    pub pawn: u64,
    pub knight: u64,
    pub bishop: u64,
    pub rook: u64,
    pub queen: u64,
    pub king: u64,
    pub to_move: Color,
    pub castle_wk: bool,
    pub castle_wq: bool,
    pub castle_bk: bool,
    pub castle_bq: bool,
    pub ep: u64,
}

/// A castling right, derived from the has-moved plane and the king and
/// rook home squares.
pub open spec fn castle_right(b: BitBoard, c: Color, kingside: bool) -> bool {
    let kh = king_home(c);
    let rh = if kingside {
        kh + 3
    } else {
        kh - 4
    };
    &&& bitsq(b.n_king & b.color_plane(c), kh)
    &&& bitsq(b.n_rook & b.color_plane(c), rh)
    &&& !bitsq(b.n_moved, kh)
    &&& !bitsq(b.n_moved, rh)
}

pub open spec fn sig_of(b: BitBoard, stm: Color) -> PositionSig {
    PositionSig {
        white: b.n_white,
        black: b.n_black,
        pawn: b.n_pawn,
        knight: b.n_knight,
        bishop: b.n_bishop,
        rook: b.n_rook,
        queen: b.n_queen,
        king: b.n_king,
        to_move: stm,
        castle_wk: castle_right(b, Color::White, true),
        castle_wq: castle_right(b, Color::White, false),
        castle_bk: castle_right(b, Color::Black, true),
        castle_bq: castle_right(b, Color::Black, false),
        ep: b.n_en_passant_target,
    }
}

fn castle_right_x(b: &BitBoard, c: Color, kingside: bool) -> (r: bool)
    ensures
        r == castle_right(*b, c, kingside),
{
    let kh: u8 = match c {
        Color::White => 4,
        Color::Black => 60,
    };
    let rh: u8 = if kingside {
        kh + 3
    } else {
        kh - 4
    };
    let own: u64 = match c {
        Color::White => b.n_white,
        Color::Black => b.n_black,
    };
    testbit(b.n_king & own, kh) && testbit(b.n_rook & own, rh) && !testbit(b.n_moved, kh)
        && !testbit(b.n_moved, rh)
}

/// The repetition signature of a position.
pub fn position_sig(b: &BitBoard, stm: Color) -> (s: PositionSig)
    ensures
        s == sig_of(*b, stm),
{
    PositionSig {
        white: b.n_white,
        black: b.n_black,
        pawn: b.n_pawn,
        knight: b.n_knight,
        bishop: b.n_bishop,
        rook: b.n_rook,
        queen: b.n_queen,
        king: b.n_king,
        to_move: stm,
        castle_wk: castle_right_x(b, Color::White, true),
        castle_wq: castle_right_x(b, Color::White, false),
        castle_bk: castle_right_x(b, Color::Black, true),
        castle_bq: castle_right_x(b, Color::Black, false),
        ep: b.n_en_passant_target,
    }
}

/// How many entries of `h` equal `s`.
pub open spec fn sig_count(h: Seq<PositionSig>, s: PositionSig) -> int
    decreases h.len(),
{
    if h.len() == 0 {
        0
    } else {
        sig_count(h.drop_last(), s) + (if h.last() == s {
            1int
        } else {
            0int
        })
    }
}

pub fn count_sig(h: &Vec<PositionSig>, s: &PositionSig) -> (n: usize)
    ensures
        n == sig_count(h@, *s),
{
    let mut n: usize = 0;
    let mut i: usize = 0;
    while i < h.len()
        invariant
            i <= h.len(),
            n <= i,
            n == sig_count(h@.take(i as int), *s),
        decreases h.len() - i,
    {
        proof {
            assert(h@.take(i + 1).drop_last() =~= h@.take(i as int));
            assert(h@.take(i + 1).last() == h@[i as int]);
        }
        if h[i] == *s {
            n = n + 1;
        }
        i = i + 1;
    }
    proof {
        assert(h@.take(h@.len() as int) =~= h@);
    }
    n
}

fn at_most_one_bit_x(w: u64) -> (r: bool)
    ensures
        r == at_most_one_bit(w),
{
    if w == 0 {
        return true;
    }
    for i in 0..64u8
        invariant
            forall|j: u64| j < i ==> !bit64(w, j),
    {
        if testbit(w, i) {
            let r = w == 1u64 << (i as u64);
            proof {
                if !r {
                    assert forall|s: u64| s < 64 implies w != (1u64 << s) by {
                        if w == (1u64 << s) {
                            assert(bit64(1u64 << s, i as u64));
                        }
                    }
                }
            }
            return r;
        }
    }
    proof {
        assert forall|s: u64| s < 64 implies w != (1u64 << s) by {
            assert(bit64(1u64 << s, s));
            assert(!bit64(w, s));
        }
    }
    false
}

/// The fixed table of known-insufficient material: lone kings, or a
/// lone king against king and one minor piece (knight or bishop).
pub open spec fn insufficient_material(b: BitBoard) -> bool {
    &&& b.n_pawn == 0
    &&& b.n_rook == 0
    &&& b.n_queen == 0
    &&& at_most_one_bit(b.n_knight | b.n_bishop)
}

fn insufficient_material_x(b: &BitBoard) -> (r: bool)
    ensures
        r == insufficient_material(*b),
{
    b.n_pawn == 0 && b.n_rook == 0 && b.n_queen == 0 && at_most_one_bit_x(b.n_knight | b.n_bishop)
}

/// Outcome classification for the side to move, run after a move was
/// applied. `halfmove` is the half-move clock (plies since the last
/// capture or pawn move; the move-count limit draw fires at one hundred
/// plies, fifty full moves); `h` is the full signature history including
/// the current position. No legal moves takes precedence; the remaining
/// draws are evaluated only when legal moves exist, in the order
/// move-count limit, repetition, insufficient material.
pub open spec fn classify_spec(b: BitBoard, stm: Color, halfmove: u64, h: Seq<PositionSig>) -> MoveResult {
    if !(exists|m: Move| legal(b, stm, m)) {
        if in_check(b, stm) {
            MoveResult::Checkmate
        } else {
            MoveResult::Stalemate
        }
    } else if halfmove >= 100 {
        MoveResult::FiftyMoveRule
    } else if sig_count(h, sig_of(b, stm)) >= 3 {
        MoveResult::Repitition
    } else if insufficient_material(b) {
        MoveResult::InsufficientMaterial
    } else {
        MoveResult::Continue
    }
}

/// Classifies the position for the new side to move.
pub fn classify(b: &BitBoard, stm: Color, halfmove: u64, history: &Vec<PositionSig>) -> (r:
    MoveResult)
    ensures
        r == classify_spec(*b, stm, halfmove, history@),
{
    let moves = generate_legal_moves(b, stm);
    if moves.len() == 0 {
        proof {
            assert forall|m: Move| !legal(*b, stm, m) by {
                assert(!moves@.contains(m));
            }
        }
        if b.is_in_check(stm) {
            MoveResult::Checkmate
        } else {
            MoveResult::Stalemate
        }
    } else {
        proof {
            assert(moves@.contains(moves@[0]));
        }
        if halfmove >= 100 {
            MoveResult::FiftyMoveRule
        } else {
            let sig = position_sig(b, stm);
            if count_sig(history, &sig) >= 3 {
                MoveResult::Repitition
            } else if insufficient_material_x(b) {
                MoveResult::InsufficientMaterial
            } else {
                MoveResult::Continue
            }
        }
    }
}

/// A recurring signature law: when legal moves exist, the clock is
/// short of the limit, and the position's signature stands at least
/// three times in the history, classification is the repetition draw.
pub proof fn lemma_third_repetition_draws(b: BitBoard, stm: Color, halfmove: u64, h: Seq<
    PositionSig,
>)
    requires
        exists|m: Move| legal(b, stm, m),
        halfmove < 100,
        sig_count(h, sig_of(b, stm)) >= 3,
    ensures
        classify_spec(b, stm, halfmove, h) == MoveResult::Repitition,
{
}

/// A legal move never leaves the mover's own king attacked.
pub proof fn lemma_legal_keeps_king_safe(b: BitBoard, stm: Color, m: Move)
    requires
        legal(b, stm, m),
    ensures
        !in_check(apply_spec(b, stm, m), stm),
{
}

/// The en-passant-target plane lives one ply: any move that is not a
/// qualifying double push clears it.
pub proof fn lemma_en_passant_cleared(b: BitBoard, stm: Color, m: Move)
    requires
        pseudo_legal(b, stm, m),
        !is_double_push(b, m),
    ensures
        apply_spec(b, stm, m).n_en_passant_target == 0,
{
}

/// A capture whose captured square differs from the destination is an
/// en-passant capture: it is pseudo-legal only when the destination
/// carries the en-passant-target bit.
pub proof fn lemma_displaced_capture_is_en_passant(b: BitBoard, stm: Color, m: Move, c: u8)
    requires
        pseudo_legal(b, stm, m),
        m.captures == Some(c),
        c != m.to,
    ensures
        bitsq(b.n_en_passant_target, m.to as int),
        b.kind_at(m.from as u64) == Some(PieceKind::Pawn),
{
}

/// After any move that is not a qualifying double push, no en-passant
/// capture is legal on the following ply.
pub proof fn lemma_en_passant_expires(b: BitBoard, stm: Color, m: Move, m2: Move, c: u8)
    requires
        pseudo_legal(b, stm, m),
        !is_double_push(b, m),
        m2.captures == Some(c),
        c != m2.to,
    ensures
        !pseudo_legal(apply_spec(b, stm, m), crate::types::opposite(stm), m2),
{
    lemma_en_passant_cleared(b, stm, m);
    let nb = apply_spec(b, stm, m);
    if pseudo_legal(nb, crate::types::opposite(stm), m2) {
        lemma_displaced_capture_is_en_passant(nb, crate::types::opposite(stm), m2, c);
    }
}

} // verus!
