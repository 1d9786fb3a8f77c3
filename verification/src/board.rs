//! The board: an immutable-per-ply position snapshot composed of
//! disjoint 64-bit planes. Squares are indexed 0-63, file a-h as index
//! mod 8 from 0, rank 1-8 as index div 8 from 0; white moves towards
//! higher ranks.

use vstd::prelude::*;
use crate::bits::bit64;
use crate::types::{Color, PieceKind};

verus! {

/// Position snapshot: two color occupancy planes, six piece-type
/// occupancy planes, a has-moved plane (which squares' origin pieces have
/// ever moved, for castling-rights derivation), and an en-passant-target
/// plane holding at most one bit, valid for exactly one subsequent ply.
#[derive(Clone, Copy, Debug, PartialEq, Eq, Structural)]
pub struct BitBoard {
    // color bitboards
    pub n_white: u64,
    pub n_black: u64,
    // piece bitboards
    pub n_pawn: u64,
    pub n_bishop: u64,
    pub n_knight: u64,
    pub n_rook: u64,
    pub n_queen: u64,
    pub n_king: u64,
    // special bitboards
    pub n_moved: u64,
    pub n_en_passant_target: u64,
}

/// The word has at most one bit set.
pub open spec fn at_most_one_bit(w: u64) -> bool {
    w == 0 || exists|s: u64| s < 64 && w == (1u64 << s)
}

impl BitBoard {
    /// All occupied squares.
    pub open spec fn occ(self) -> u64 {
        self.n_white | self.n_black
    }

    pub open spec fn color_plane(self, c: Color) -> u64 {
        match c {
            Color::White => self.n_white,
            Color::Black => self.n_black,
        }
    }

    pub open spec fn piece_plane(self, k: PieceKind) -> u64 {
        match k {
            PieceKind::Pawn => self.n_pawn,
            PieceKind::Knight => self.n_knight,
            PieceKind::Bishop => self.n_bishop,
            PieceKind::Rook => self.n_rook,
            PieceKind::Queen => self.n_queen,
            PieceKind::King => self.n_king,
        }
    }

    /// How many color planes hold square `i`.
    pub open spec fn color_count_at(self, i: u64) -> int {
        (if bit64(self.n_white, i) {
            1int
        } else {
            0int
        }) + (if bit64(self.n_black, i) {
            1int
        } else {
            0int
        })
    }

    /// How many piece-type planes hold square `i`.
    pub open spec fn piece_count_at(self, i: u64) -> int {
        (if bit64(self.n_pawn, i) {
            1int
        } else {
            0int
        }) + (if bit64(self.n_knight, i) {
            1int
        } else {
            0int
        }) + (if bit64(self.n_bishop, i) {
            1int
        } else {
            0int
        }) + (if bit64(self.n_rook, i) {
            1int
        } else {
            0int
        }) + (if bit64(self.n_queen, i) {
            1int
        } else {
            0int
        }) + (if bit64(self.n_king, i) {
            1int
        } else {
            0int
        })
    }

    /// Square `i` has at most one color, and exactly one piece type when
    /// occupied, none when empty.
    pub open spec fn square_ok(self, i: u64) -> bool {
        &&& self.color_count_at(i) <= 1
        &&& self.piece_count_at(i) == self.color_count_at(i)
    }

    /// Well-formedness: color planes disjoint, every occupied square has
    /// exactly one color and one piece type, and the en-passant-target
    /// plane holds at most one bit.
    pub open spec fn wf(self) -> bool {
        &&& forall|i: u64| i < 64 ==> self.square_ok(i)
        &&& at_most_one_bit(self.n_en_passant_target)
    }

    /// The color occupying square `i`, if any. White is looked up first;
    /// on a well-formed board the planes are disjoint, so order is moot.
    pub open spec fn color_at(self, i: u64) -> Option<Color> {
        if bit64(self.n_white, i) {
            Some(Color::White)
        } else if bit64(self.n_black, i) {
            Some(Color::Black)
        } else {
            None
        }
    }

    /// The piece kind on square `i`, if any, looked up in a fixed plane
    /// order; on a well-formed board at most one plane holds the square.
    pub open spec fn kind_at(self, i: u64) -> Option<PieceKind> {
        if bit64(self.n_pawn, i) {
            Some(PieceKind::Pawn)
        } else if bit64(self.n_knight, i) {
            Some(PieceKind::Knight)
        } else if bit64(self.n_bishop, i) {
            Some(PieceKind::Bishop)
        } else if bit64(self.n_rook, i) {
            Some(PieceKind::Rook)
        } else if bit64(self.n_queen, i) {
            Some(PieceKind::Queen)
        } else if bit64(self.n_king, i) {
            Some(PieceKind::King)
        } else {
            None
        }
    }

    pub open spec fn occupant_spec(self, i: u64) -> Option<(Color, PieceKind)> {
        match (self.color_at(i), self.kind_at(i)) {
            (Some(c), Some(k)) => Some((c, k)),
            _ => None,
        }
    }

    /// The occupant of a square: its color and piece kind.
    pub fn occupant_at(&self, square: u8) -> (r: Option<(Color, PieceKind)>)
        requires
            square < 64,
        ensures
            r == self.occupant_spec(square as u64),
    {
        let c = if crate::bits::testbit(self.n_white, square) {
            Some(Color::White)
        } else if crate::bits::testbit(self.n_black, square) {
            Some(Color::Black)
        } else {
            None
        };
        let k = if crate::bits::testbit(self.n_pawn, square) {
            Some(PieceKind::Pawn)
        } else if crate::bits::testbit(self.n_knight, square) {
            Some(PieceKind::Knight)
        } else if crate::bits::testbit(self.n_bishop, square) {
            Some(PieceKind::Bishop)
        } else if crate::bits::testbit(self.n_rook, square) {
            Some(PieceKind::Rook)
        } else if crate::bits::testbit(self.n_queen, square) {
            Some(PieceKind::Queen)
        } else if crate::bits::testbit(self.n_king, square) {
            Some(PieceKind::King)
        } else {
            None
        };
        match (c, k) {
            (Some(cc), Some(kk)) => Some((cc, kk)),
            _ => None,
        }
    }
}

/// The standard initial layout.
pub open spec fn initial_board_spec() -> BitBoard {
    BitBoard {
        n_white: 0x0000_0000_0000_FFFFu64,
        n_black: 0xFFFF_0000_0000_0000u64,
        n_pawn: 0x00FF_0000_0000_FF00u64,
        n_bishop: 0x2400_0000_0000_0024u64,
        n_knight: 0x4200_0000_0000_0042u64,
        n_rook: 0x8100_0000_0000_0081u64,
        n_queen: 0x0800_0000_0000_0008u64,
        n_king: 0x1000_0000_0000_0010u64,
        n_moved: 0u64,
        n_en_passant_target: 0u64,
    }
}

/// The initial position is well formed.
pub proof fn lemma_initial_wf()
    ensures
        initial_board_spec().wf(),
{
    let b = initial_board_spec();
    assert forall|i: u64| i < 64 implies b.square_ok(i) by {
        lemma_initial_square_ok(i);
    }
}

proof fn lemma_initial_square_ok(i: u64)
    by (bit_vector)
    requires
        i < 64,
    ensures
        initial_board_spec().square_ok(i),
{
}

/// Construction from the standard initial layout.
pub fn initial_board() -> (b: BitBoard)
    ensures
        b == initial_board_spec(),
        b.wf(),
{
    proof {
        lemma_initial_wf();
    }
    BitBoard {
        n_white: 0x0000_0000_0000_FFFFu64,
        n_black: 0xFFFF_0000_0000_0000u64,
        n_pawn: 0x00FF_0000_0000_FF00u64,
        n_bishop: 0x2400_0000_0000_0024u64,
        n_knight: 0x4200_0000_0000_0042u64,
        n_rook: 0x8100_0000_0000_0081u64,
        n_queen: 0x0800_0000_0000_0008u64,
        n_king: 0x1000_0000_0000_0010u64,
        n_moved: 0u64,
        n_en_passant_target: 0u64,
    }
}

} // verus!
