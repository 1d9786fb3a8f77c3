//! Move generation: attack geometry, pseudo-legal movement rules, and
//! the legal move set for a board and side to move.

use vstd::prelude::*;
use crate::bits::{bit64, testbit};
use crate::board::BitBoard;
use crate::types::{Castling, Color, Move, MoveResult, PieceKind, opposite};

verus! {

broadcast use crate::bits::lemma_bit_or, crate::bits::lemma_bit_and, crate::bits::lemma_bit_not,
    crate::bits::lemma_bit_single, crate::bits::lemma_bit_zero;

pub open spec fn rank_of(sq: int) -> int {
    sq / 8
}

pub open spec fn file_of(sq: int) -> int {
    sq % 8
}

pub open spec fn absd(x: int) -> int {
    if x < 0 {
        -x
    } else {
        x
    }
}

pub open spec fn sgn(x: int) -> int {
    if x > 0 {
        1
    } else if x < 0 {
        -1
    } else {
        0
    }
}

/// Bit test by square index; false off the board.
pub open spec fn bitsq(w: u64, sq: int) -> bool {
    0 <= sq < 64 && bit64(w, sq as u64)
}

pub open spec fn knight_jump(from: int, to: int) -> bool {
    let dr = absd(rank_of(to) - rank_of(from));
    let df = absd(file_of(to) - file_of(from));
    (dr == 1 && df == 2) || (dr == 2 && df == 1)
}

pub open spec fn king_step(from: int, to: int) -> bool {
    let dr = absd(rank_of(to) - rank_of(from));
    let df = absd(file_of(to) - file_of(from));
    dr <= 1 && df <= 1 && from != to
}

pub open spec fn rook_line(from: int, to: int) -> bool {
    from != to && (rank_of(from) == rank_of(to) || file_of(from) == file_of(to))
}

pub open spec fn bishop_diag(from: int, to: int) -> bool {
    let dr = rank_of(to) - rank_of(from);
    let df = file_of(to) - file_of(from);
    dr != 0 && absd(dr) == absd(df)
}

pub open spec fn aligned(from: int, to: int) -> bool {
    rook_line(from, to) || bishop_diag(from, to)
}

/// Number of king-steps from `from` to `to` along a line or diagonal.
pub open spec fn seg_len(from: int, to: int) -> int {
    let dr = absd(rank_of(to) - rank_of(from));
    let df = absd(file_of(to) - file_of(from));
    if dr >= df {
        dr
    } else {
        df
    }
}

/// Index delta of one step from `from` towards `to`.
pub open spec fn step_of(from: int, to: int) -> int {
    8 * sgn(rank_of(to) - rank_of(from)) + sgn(file_of(to) - file_of(from))
}

/// The `n` squares reached from `sq` by successive `step`s are all free
/// in `o`.
pub open spec fn ray_clear(o: u64, sq: int, step: int, n: nat) -> bool
    decreases n,
{
    if n == 0 {
        true
    } else {
        !bitsq(o, sq + step) && ray_clear(o, sq + step, step, (n - 1) as nat)
    }
}

/// Every square strictly between `from` and `to` (which must be aligned)
/// is free in `o`: the ray from `from` stops at the first blocker.
pub open spec fn path_clear(o: u64, from: int, to: int) -> bool {
    ray_clear(o, from, step_of(from, to), (seg_len(from, to) - 1) as nat)
}

/// The rank direction a pawn of color `c` advances in.
pub open spec fn pawn_dir(c: Color) -> int {
    match c {
        Color::White => 1,
        Color::Black => -1,
    }
}

/// A pawn of color `c` standing on `from` attacks `to`: one rank ahead,
/// one file aside.
pub open spec fn pawn_attack_step(c: Color, from: int, to: int) -> bool {
    rank_of(to) - rank_of(from) == pawn_dir(c) && absd(file_of(to) - file_of(from)) == 1
}

/// The piece of color `c` on square `from` attacks square `to`,
/// ignoring whether that piece is itself pinned.
pub open spec fn piece_attacks(b: BitBoard, c: Color, from: int, to: int) -> bool {
    &&& 0 <= from < 64
    &&& 0 <= to < 64
    &&& from != to
    &&& bitsq(b.color_plane(c), from)
    &&& match b.kind_at(from as u64) {
        Some(PieceKind::Pawn) => pawn_attack_step(c, from, to),
        Some(PieceKind::Knight) => knight_jump(from, to),
        Some(PieceKind::Bishop) => bishop_diag(from, to) && path_clear(b.occ(), from, to),
        Some(PieceKind::Rook) => rook_line(from, to) && path_clear(b.occ(), from, to),
        Some(PieceKind::Queen) => aligned(from, to) && path_clear(b.occ(), from, to),
        Some(PieceKind::King) => king_step(from, to),
        None => false,
    }
}

/// Some piece of color `c` attacks square `to`.
pub open spec fn square_attacked(b: BitBoard, c: Color, to: int) -> bool {
    exists|from: int| piece_attacks(b, c, from, to)
}

/// A king of color `c` stands on a square the other color attacks.
pub open spec fn in_check(b: BitBoard, c: Color) -> bool {
    exists|sq: int|
        bitsq(b.n_king & b.color_plane(c), sq) && square_attacked(b, opposite(c), sq)
}

/// The canonical captured-square field for a plain destination capture:
/// the destination square when the opponent holds it, nothing otherwise.
pub open spec fn captures_canonical(b: BitBoard, stm: Color, m: Move) -> bool {
    m.captures == (if bitsq(b.color_plane(opposite(stm)), m.to as int) {
        Some(m.to)
    } else {
        None::<u8>
    })
}

pub open spec fn home_rank(c: Color) -> int {
    match c {
        Color::White => 1,
        Color::Black => 6,
    }
}

pub open spec fn last_rank(c: Color) -> int {
    match c {
        Color::White => 7,
        Color::Black => 0,
    }
}

pub open spec fn king_home(c: Color) -> int {
    match c {
        Color::White => 4,
        Color::Black => 60,
    }
}

pub open spec fn pawn_push_one(b: BitBoard, stm: Color, m: Move) -> bool {
    &&& m.to as int == m.from as int + 8 * pawn_dir(stm)
    &&& !bitsq(b.occ(), m.to as int)
    &&& m.captures is None
}

pub open spec fn pawn_push_two(b: BitBoard, stm: Color, m: Move) -> bool {
    &&& rank_of(m.from as int) == home_rank(stm)
    &&& m.to as int == m.from as int + 16 * pawn_dir(stm)
    &&& !bitsq(b.occ(), m.from as int + 8 * pawn_dir(stm))
    &&& !bitsq(b.occ(), m.to as int)
    &&& m.captures is None
}

pub open spec fn pawn_capture_plain(b: BitBoard, stm: Color, m: Move) -> bool {
    &&& pawn_attack_step(stm, m.from as int, m.to as int)
    &&& bitsq(b.color_plane(opposite(stm)), m.to as int)
    &&& m.captures == Some(m.to)
}

/// En-passant: the destination equals the en-passant-target bit, the
/// destination itself is empty, and the captured pawn stands one rank
/// behind the destination.
pub open spec fn pawn_capture_en_passant(b: BitBoard, stm: Color, m: Move) -> bool {
    &&& pawn_attack_step(stm, m.from as int, m.to as int)
    &&& bitsq(b.n_en_passant_target, m.to as int)
    &&& !bitsq(b.occ(), m.to as int)
    &&& bitsq(b.color_plane(opposite(stm)) & b.n_pawn, m.to as int - 8 * pawn_dir(stm))
    &&& m.captures == Some((m.to as int - 8 * pawn_dir(stm)) as u8)
}

pub open spec fn pawn_move_ok(b: BitBoard, stm: Color, m: Move) -> bool {
    &&& m.castling == Castling::NoCastle
    &&& (if rank_of(m.to as int) == last_rank(stm) {
        m.promotion matches Some(p) && p != PieceKind::Pawn && p != PieceKind::King
    } else {
        m.promotion is None
    })
    &&& (pawn_push_one(b, stm, m) || pawn_push_two(b, stm, m) || pawn_capture_plain(b, stm, m)
        || pawn_capture_en_passant(b, stm, m))
}

/// Castling is generated only when king and rook have never moved, the
/// squares between them are empty, and the king's start, transit and
/// destination squares are not in the opponent's attack set.
pub open spec fn castle_ok(b: BitBoard, stm: Color, m: Move) -> bool {
    let kh = king_home(stm);
    &&& m.captures is None
    &&& m.promotion is None
    &&& m.from as int == kh
    &&& match m.castling {
        Castling::Kingside => {
            &&& m.to as int == kh + 2
            &&& bitsq(b.n_rook & b.color_plane(stm), kh + 3)
            &&& !bitsq(b.n_moved, kh)
            &&& !bitsq(b.n_moved, kh + 3)
            &&& !bitsq(b.occ(), kh + 1)
            &&& !bitsq(b.occ(), kh + 2)
            &&& !square_attacked(b, opposite(stm), kh)
            &&& !square_attacked(b, opposite(stm), kh + 1)
            &&& !square_attacked(b, opposite(stm), kh + 2)
        },
        Castling::Queenside => {
            &&& m.to as int == kh - 2
            &&& bitsq(b.n_rook & b.color_plane(stm), kh - 4)
            &&& !bitsq(b.n_moved, kh)
            &&& !bitsq(b.n_moved, kh - 4)
            &&& !bitsq(b.occ(), kh - 1)
            &&& !bitsq(b.occ(), kh - 2)
            &&& !bitsq(b.occ(), kh - 3)
            &&& !square_attacked(b, opposite(stm), kh)
            &&& !square_attacked(b, opposite(stm), kh - 1)
            &&& !square_attacked(b, opposite(stm), kh - 2)
        },
        Castling::NoCastle => false,
    }
}

/// A move respecting piece movement rules, not yet filtered for leaving
/// one's own king in check. The captured-square, castling, promotion and
/// outcome fields are pinned to their canonical values.
pub open spec fn pseudo_legal(b: BitBoard, stm: Color, m: Move) -> bool {
    &&& m.from < 64
    &&& m.to < 64
    &&& m.from != m.to
    &&& m.result == MoveResult::Continue
    &&& bitsq(b.color_plane(stm), m.from as int)
    &&& !bitsq(b.color_plane(stm), m.to as int)
    &&& match b.kind_at(m.from as u64) {
        Some(PieceKind::Pawn) => pawn_move_ok(b, stm, m),
        Some(PieceKind::Knight) => {
            &&& m.castling == Castling::NoCastle
            &&& m.promotion is None
            &&& knight_jump(m.from as int, m.to as int)
            &&& captures_canonical(b, stm, m)
        },
        Some(PieceKind::Bishop) => {
            &&& m.castling == Castling::NoCastle
            &&& m.promotion is None
            &&& bishop_diag(m.from as int, m.to as int)
            &&& path_clear(b.occ(), m.from as int, m.to as int)
            &&& captures_canonical(b, stm, m)
        },
        Some(PieceKind::Rook) => {
            &&& m.castling == Castling::NoCastle
            &&& m.promotion is None
            &&& rook_line(m.from as int, m.to as int)
            &&& path_clear(b.occ(), m.from as int, m.to as int)
            &&& captures_canonical(b, stm, m)
        },
        Some(PieceKind::Queen) => {
            &&& m.castling == Castling::NoCastle
            &&& m.promotion is None
            &&& aligned(m.from as int, m.to as int)
            &&& path_clear(b.occ(), m.from as int, m.to as int)
            &&& captures_canonical(b, stm, m)
        },
        Some(PieceKind::King) => {
            &&& m.promotion is None
            &&& if m.castling == Castling::NoCastle {
                king_step(m.from as int, m.to as int) && captures_canonical(b, stm, m)
            } else {
                castle_ok(b, stm, m)
            }
        },
        None => false,
    }
}

/// A legal move: pseudo-legal, and applying it does not leave the
/// mover's own king attacked.
pub open spec fn legal(b: BitBoard, stm: Color, m: Move) -> bool {
    pseudo_legal(b, stm, m) && !in_check(crate::rules::apply_spec(b, stm, m), stm)
}

fn color_plane_x(b: &BitBoard, c: Color) -> (r: u64)
    ensures
        r == b.color_plane(c),
{
    match c {
        Color::White => b.n_white,
        Color::Black => b.n_black,
    }
}

/// Walks the squares strictly between two aligned squares and reports
/// whether all are unoccupied.
fn path_clear_x(o: u64, from: u8, to: u8) -> (r: bool)
    requires
        from < 64,
        to < 64,
        aligned(from as int, to as int),
    ensures
        r == path_clear(o, from as int, to as int),
{
    let fi = from as i32;
    let ti = to as i32;
    let r1: i32 = fi / 8;
    let f1: i32 = fi % 8;
    let r2: i32 = ti / 8;
    let f2: i32 = ti % 8;
    let dr: i32 = r2 - r1;
    let df: i32 = f2 - f1;
    let sr: i32 = if dr > 0 {
        1
    } else if dr < 0 {
        -1
    } else {
        0
    };
    let sf: i32 = if df > 0 {
        1
    } else if df < 0 {
        -1
    } else {
        0
    };
    let adr: i32 = if dr < 0 {
        -dr
    } else {
        dr
    };
    let adf: i32 = if df < 0 {
        -df
    } else {
        df
    };
    let n: i32 = if adr >= adf {
        adr
    } else {
        adf
    };
    let step: i32 = 8 * sr + sf;
    let mut cr: i32 = r1;
    let mut cf: i32 = f1;
    let mut cur: i32 = fi;
    let mut i: i32 = n - 1;
    proof {
        assert(sr as int == sgn(rank_of(to as int) - rank_of(from as int)));
        assert(sf as int == sgn(file_of(to as int) - file_of(from as int)));
        assert(n as int == seg_len(from as int, to as int));
        assert(step as int == step_of(from as int, to as int));
        assert(n >= 1);
    }
    while i > 0
        invariant
            0 <= i <= n - 1,
            n as int == seg_len(from as int, to as int),
            n <= 7,
            step as int == step_of(from as int, to as int),
            aligned(from as int, to as int),
            from < 64,
            to < 64,
            step == 8 * sr + sf,
            -1 <= sr <= 1,
            -1 <= sf <= 1,
            cur == cr * 8 + cf,
            0 <= cr <= 7,
            0 <= cf <= 7,
            sr == 0 ==> cr == to as i32 / 8,
            sr == 1 ==> cr == to as i32 / 8 - i - 1,
            sr == -1 ==> cr == to as i32 / 8 + i + 1,
            sf == 0 ==> cf == to as i32 % 8,
            sf == 1 ==> cf == to as i32 % 8 - i - 1,
            sf == -1 ==> cf == to as i32 % 8 + i + 1,
            path_clear(o, from as int, to as int) == ray_clear(o, cur as int, step as int, i as nat),
        decreases i,
    {
        cr = cr + sr;
        cf = cf + sf;
        cur = cur + step;
        assert(0 <= cr <= 7 && 0 <= cf <= 7);
        assert(0 <= cur < 64);
        if testbit(o, cur as u8) {
            return false;
        }
        i = i - 1;
    }
    true
}

fn pawn_dir_x(c: Color) -> (r: i32)
    ensures
        r as int == pawn_dir(c),
{
    match c {
        Color::White => 1,
        Color::Black => -1,
    }
}

/// Whether the piece of color `c` on `from` (if any) attacks `to`.
fn piece_attacks_x(b: &BitBoard, c: Color, from: u8, to: u8) -> (r: bool)
    requires
        from < 64,
        to < 64,
    ensures
        r == piece_attacks(*b, c, from as int, to as int),
{
    if from == to {
        return false;
    }
    if !testbit(color_plane_x(b, c), from) {
        return false;
    }
    let dr: i32 = (to / 8) as i32 - (from / 8) as i32;
    let df: i32 = (to % 8) as i32 - (from % 8) as i32;
    let adr: i32 = if dr < 0 {
        -dr
    } else {
        dr
    };
    let adf: i32 = if df < 0 {
        -df
    } else {
        df
    };
    if testbit(b.n_pawn, from) {
        dr == pawn_dir_x(c) && adf == 1
    } else if testbit(b.n_knight, from) {
        (adr == 1 && adf == 2) || (adr == 2 && adf == 1)
    } else if testbit(b.n_bishop, from) {
        dr != 0 && adr == adf && path_clear_x(b.n_white | b.n_black, from, to)
    } else if testbit(b.n_rook, from) {
        (dr == 0 || df == 0) && path_clear_x(b.n_white | b.n_black, from, to)
    } else if testbit(b.n_queen, from) {
        ((dr == 0 || df == 0) || (dr != 0 && adr == adf)) && path_clear_x(
            b.n_white | b.n_black,
            from,
            to,
        )
    } else if testbit(b.n_king, from) {
        adr <= 1 && adf <= 1
    } else {
        false
    }
}

/// Whether any piece of color `c` attacks square `sq`.
pub fn is_square_attacked(b: &BitBoard, c: Color, sq: u8) -> (r: bool)
    requires
        sq < 64,
    ensures
        r == square_attacked(*b, c, sq as int),
{
    for from in 0..64u8
        invariant
            sq < 64,
            forall|j: int| 0 <= j < from ==> !piece_attacks(*b, c, j, sq as int),
    {
        if piece_attacks_x(b, c, from, sq) {
            return true;
        }
    }
    false
}

fn captures_canonical_x(b: &BitBoard, stm: Color, m: &Move) -> (r: bool)
    requires
        m.to < 64,
    ensures
        r == captures_canonical(*b, stm, *m),
{
    let opp = color_plane_x(b, crate::types::other_side(stm));
    let want: Option<u8> = if testbit(opp, m.to) {
        Some(m.to)
    } else {
        None
    };
    match (m.captures, want) {
        (Option::None, Option::None) => true,
        (Option::Some(a), Option::Some(w)) => a == w,
        _ => false,
    }
}

fn pawn_move_ok_x(b: &BitBoard, stm: Color, m: &Move) -> (r: bool)
    requires
        m.from < 64,
        m.to < 64,
    ensures
        r == pawn_move_ok(*b, stm, *m),
{
    if m.castling != Castling::NoCastle {
        return false;
    }
    let fi = m.from as i32;
    let ti = m.to as i32;
    let dir = pawn_dir_x(stm);
    let lastr: i32 = match stm {
        Color::White => 7,
        Color::Black => 0,
    };
    let homer: i32 = match stm {
        Color::White => 1,
        Color::Black => 6,
    };
    let promo_ok = if ti / 8 == lastr {
        match m.promotion {
            Some(PieceKind::Knight) => true,
            Some(PieceKind::Bishop) => true,
            Some(PieceKind::Rook) => true,
            Some(PieceKind::Queen) => true,
            _ => false,
        }
    } else {
        match m.promotion {
            Option::None => true,
            _ => false,
        }
    };
    if !promo_ok {
        return false;
    }
    let occ = b.n_white | b.n_black;
    let opp = color_plane_x(b, crate::types::other_side(stm));
    let none_cap = match m.captures {
        Option::None => true,
        _ => false,
    };
    // single push
    if ti == fi + 8 * dir && !testbit(occ, m.to) && none_cap {
        return true;
    }
    // double push
    if fi / 8 == homer && ti == fi + 16 * dir && none_cap {
        let mid = (fi + 8 * dir) as u8;
        if !testbit(occ, mid) && !testbit(occ, m.to) {
            return true;
        }
    }
    let dr = ti / 8 - fi / 8;
    let df = ti % 8 - fi % 8;
    let adf = if df < 0 {
        -df
    } else {
        df
    };
    if dr == dir && adf == 1 {
        // plain diagonal capture
        if testbit(opp, m.to) {
            match m.captures {
                Some(c) if c == m.to => {
                    return true;
                },
                _ => {},
            }
        }
        // en-passant capture
        if testbit(b.n_en_passant_target, m.to) && !testbit(occ, m.to) {
            let displaced = (ti - 8 * dir) as u8;
            if testbit(opp & b.n_pawn, displaced) {
                match m.captures {
                    Some(c) if c == displaced => {
                        return true;
                    },
                    _ => {},
                }
            }
        }
    }
    false
}

fn castle_ok_x(b: &BitBoard, stm: Color, m: &Move) -> (r: bool)
    requires
        m.from < 64,
        m.to < 64,
    ensures
        r == castle_ok(*b, stm, *m),
{
    let kh: u8 = match stm {
        Color::White => 4,
        Color::Black => 60,
    };
    let caps_ok = match m.captures {
        Option::None => true,
        _ => false,
    };
    let promo_ok = match m.promotion {
        Option::None => true,
        _ => false,
    };
    if !caps_ok || !promo_ok || m.from != kh {
        return false;
    }
    let own = color_plane_x(b, stm);
    let opp = crate::types::other_side(stm);
    let occ = b.n_white | b.n_black;
    match m.castling {
        Castling::Kingside => {
            m.to == kh + 2 && testbit(b.n_rook & own, kh + 3) && !testbit(b.n_moved, kh)
                && !testbit(b.n_moved, kh + 3) && !testbit(occ, kh + 1) && !testbit(occ, kh + 2)
                && !is_square_attacked(b, opp, kh) && !is_square_attacked(b, opp, kh + 1)
                && !is_square_attacked(b, opp, kh + 2)
        },
        Castling::Queenside => {
            m.to == kh - 2 && testbit(b.n_rook & own, kh - 4) && !testbit(b.n_moved, kh)
                && !testbit(b.n_moved, kh - 4) && !testbit(occ, kh - 1) && !testbit(occ, kh - 2)
                && !testbit(occ, kh - 3) && !is_square_attacked(b, opp, kh)
                && !is_square_attacked(b, opp, kh - 1) && !is_square_attacked(b, opp, kh - 2)
        },
        Castling::NoCastle => false,
    }
}

/// Whether a move respects piece movement rules, before the own-king
/// safety filter.
pub fn is_pseudo_legal_move(b: &BitBoard, stm: Color, m: &Move) -> (r: bool)
    ensures
        r == pseudo_legal(*b, stm, *m),
{
    if m.from >= 64 || m.to >= 64 || m.from == m.to {
        return false;
    }
    if m.result != MoveResult::Continue {
        return false;
    }
    let own = color_plane_x(b, stm);
    if !testbit(own, m.from) || testbit(own, m.to) {
        return false;
    }
    let no_castle = m.castling == Castling::NoCastle;
    let no_promo = match m.promotion {
        Option::None => true,
        _ => false,
    };
    let dr: i32 = (m.to / 8) as i32 - (m.from / 8) as i32;
    let df: i32 = (m.to % 8) as i32 - (m.from % 8) as i32;
    let adr: i32 = if dr < 0 {
        -dr
    } else {
        dr
    };
    let adf: i32 = if df < 0 {
        -df
    } else {
        df
    };
    let occ = b.n_white | b.n_black;
    if testbit(b.n_pawn, m.from) {
        pawn_move_ok_x(b, stm, m)
    } else if testbit(b.n_knight, m.from) {
        no_castle && no_promo && ((adr == 1 && adf == 2) || (adr == 2 && adf == 1))
            && captures_canonical_x(b, stm, m)
    } else if testbit(b.n_bishop, m.from) {
        no_castle && no_promo && dr != 0 && adr == adf && path_clear_x(occ, m.from, m.to)
            && captures_canonical_x(b, stm, m)
    } else if testbit(b.n_rook, m.from) {
        no_castle && no_promo && (dr == 0 || df == 0) && path_clear_x(occ, m.from, m.to)
            && captures_canonical_x(b, stm, m)
    } else if testbit(b.n_queen, m.from) {
        no_castle && no_promo && ((dr == 0 || df == 0) || (dr != 0 && adr == adf)) && path_clear_x(
            occ,
            m.from,
            m.to,
        ) && captures_canonical_x(b, stm, m)
    } else if testbit(b.n_king, m.from) {
        if no_castle {
            no_promo && adr <= 1 && adf <= 1 && captures_canonical_x(b, stm, m)
        } else {
            castle_ok_x(b, stm, m)
        }
    } else {
        false
    }
}

/// Every pseudo-legal move's squares are in range for plane masks.
pub proof fn lemma_pseudo_legal_in_range(b: BitBoard, stm: Color, m: Move)
    requires
        pseudo_legal(b, stm, m),
    ensures
        crate::rules::move_in_range(m),
{
}

/// The simulate-and-test legality filter: pseudo-legal, then the move is
/// applied and discarded if the mover's own king is left attacked.
pub fn is_legal_move(b: &BitBoard, stm: Color, m: &Move) -> (r: bool)
    ensures
        r == legal(*b, stm, *m),
{
    if !is_pseudo_legal_move(b, stm, m) {
        return false;
    }
    proof {
        lemma_pseudo_legal_in_range(*b, stm, *m);
    }
    let nb = crate::rules::apply(b, stm, m);
    !nb.is_in_check(stm)
}

proof fn lemma_concat_contains(a: Seq<Move>, b: Seq<Move>)
    ensures
        forall|x: Move| #[trigger] (a + b).contains(x) == (a.contains(x) || b.contains(x)),
{
    assert forall|x: Move| #[trigger] (a + b).contains(x) == (a.contains(x) || b.contains(x)) by {
        if (a + b).contains(x) {
            let i = choose|i: int| 0 <= i < (a + b).len() && (a + b)[i] == x;
            if i < a.len() {
                assert(a[i] == x);
            } else {
                assert(b[i - a.len()] == x);
            }
        }
        if a.contains(x) {
            let i = choose|i: int| 0 <= i < a.len() && a[i] == x;
            assert((a + b)[i] == x);
        }
        if b.contains(x) {
            let i = choose|i: int| 0 <= i < b.len() && b[i] == x;
            assert((a + b)[a.len() + i] == x);
        }
    }
}

/// Appends `m` to `out` exactly when it is legal.
fn try_move(b: &BitBoard, stm: Color, out: &mut Vec<Move>, m: Move)
    ensures
        forall|x: Move| #[trigger] final (out)@.contains(x) == (old(out)@.contains(x) || (x == m
            && legal(*b, stm, m))),
{
    let ghost pre = out@;
    if is_legal_move(b, stm, &m) {
        out.push(m);
        proof {
            assert forall|x: Move| #[trigger] out@.contains(x) == (pre.contains(x) || (x == m
                && legal(*b, stm, m))) by {
                assert(out@ == pre.push(m));
                if out@.contains(x) {
                    let i = choose|i: int| 0 <= i < out@.len() && out@[i] == x;
                    if i < pre.len() {
                        assert(pre[i] == x);
                    }
                }
                if pre.contains(x) {
                    let i = choose|i: int| 0 <= i < pre.len() && pre[i] == x;
                    assert(out@[i] == x);
                }
                if x == m {
                    assert(out@[pre.len() as int] == x);
                }
            }
        }
    }
}

/// All legal moves from `from` to `to`: the canonical captured-square,
/// castling and promotion fields are derived, promotion enumerating all
/// four choices.
fn candidate_moves(b: &BitBoard, stm: Color, from: u8, to: u8) -> (r: Vec<Move>)
    requires
        from < 64,
        to < 64,
    ensures
        forall|m: Move| #[trigger] r@.contains(m) == (m.from == from && m.to == to && legal(
            *b,
            stm,
            m,
        )),
{
    let mut out: Vec<Move> = Vec::new();
    let opp = color_plane_x(b, crate::types::other_side(stm));
    let normal_cap: Option<u8> = if testbit(opp, to) {
        Some(to)
    } else {
        None
    };
    if testbit(b.n_pawn, from) {
        let promo_rank: bool = match stm {
            Color::White => to / 8 == 7,
            Color::Black => to / 8 == 0,
        };
        if promo_rank {
            try_move(
                b,
                stm,
                &mut out,
                Move {
                    from,
                    to,
                    captures: normal_cap,
                    castling: Castling::NoCastle,
                    promotion: Some(PieceKind::Knight),
                    result: MoveResult::Continue,
                },
            );
            try_move(
                b,
                stm,
                &mut out,
                Move {
                    from,
                    to,
                    captures: normal_cap,
                    castling: Castling::NoCastle,
                    promotion: Some(PieceKind::Bishop),
                    result: MoveResult::Continue,
                },
            );
            try_move(
                b,
                stm,
                &mut out,
                Move {
                    from,
                    to,
                    captures: normal_cap,
                    castling: Castling::NoCastle,
                    promotion: Some(PieceKind::Rook),
                    result: MoveResult::Continue,
                },
            );
            try_move(
                b,
                stm,
                &mut out,
                Move {
                    from,
                    to,
                    captures: normal_cap,
                    castling: Castling::NoCastle,
                    promotion: Some(PieceKind::Queen),
                    result: MoveResult::Continue,
                },
            );
            let dir = pawn_dir_x(stm);
            let ti = to as i32;
            let disp = ti - 8 * dir;
            if testbit(b.n_en_passant_target, to) && 0 <= disp && disp < 64 {
                let epc: Option<u8> = Some(disp as u8);
                try_move(
                    b,
                    stm,
                    &mut out,
                    Move {
                        from,
                        to,
                        captures: epc,
                        castling: Castling::NoCastle,
                        promotion: Some(PieceKind::Knight),
                        result: MoveResult::Continue,
                    },
                );
                try_move(
                    b,
                    stm,
                    &mut out,
                    Move {
                        from,
                        to,
                        captures: epc,
                        castling: Castling::NoCastle,
                        promotion: Some(PieceKind::Bishop),
                        result: MoveResult::Continue,
                    },
                );
                try_move(
                    b,
                    stm,
                    &mut out,
                    Move {
                        from,
                        to,
                        captures: epc,
                        castling: Castling::NoCastle,
                        promotion: Some(PieceKind::Rook),
                        result: MoveResult::Continue,
                    },
                );
                try_move(
                    b,
                    stm,
                    &mut out,
                    Move {
                        from,
                        to,
                        captures: epc,
                        castling: Castling::NoCastle,
                        promotion: Some(PieceKind::Queen),
                        result: MoveResult::Continue,
                    },
                );
            }
        } else {
            try_move(
                b,
                stm,
                &mut out,
                Move {
                    from,
                    to,
                    captures: normal_cap,
                    castling: Castling::NoCastle,
                    promotion: None,
                    result: MoveResult::Continue,
                },
            );
            // en-passant: the captured pawn is displaced from the
            // destination square
            let dir = pawn_dir_x(stm);
            let ti = to as i32;
            let disp = ti - 8 * dir;
            if testbit(b.n_en_passant_target, to) && 0 <= disp && disp < 64 {
                try_move(
                    b,
                    stm,
                    &mut out,
                    Move {
                        from,
                        to,
                        captures: Some(disp as u8),
                        castling: Castling::NoCastle,
                        promotion: None,
                        result: MoveResult::Continue,
                    },
                );
            }
        }
        proof {
            assert forall|x: Move| (x.from == from && x.to == to && legal(*b, stm, x)) implies out@.contains(
                x,
            ) by {
                assert(pawn_move_ok(*b, stm, x));
                if pawn_capture_en_passant(*b, stm, x) {
                    assert(bitsq(b.n_en_passant_target, to as int));
                    assert(0 <= x.to as int - 8 * pawn_dir(stm) < 64);
                }
            }
        }
    } else if testbit(b.n_king, from) {
        try_move(
            b,
            stm,
            &mut out,
            Move {
                from,
                to,
                captures: normal_cap,
                castling: Castling::NoCastle,
                promotion: None,
                result: MoveResult::Continue,
            },
        );
        if to == from + 2 {
            try_move(
                b,
                stm,
                &mut out,
                Move {
                    from,
                    to,
                    captures: None,
                    castling: Castling::Kingside,
                    promotion: None,
                    result: MoveResult::Continue,
                },
            );
        }
        if from >= 2 && to == from - 2 {
            try_move(
                b,
                stm,
                &mut out,
                Move {
                    from,
                    to,
                    captures: None,
                    castling: Castling::Queenside,
                    promotion: None,
                    result: MoveResult::Continue,
                },
            );
        }
        proof {
            assert forall|x: Move| (x.from == from && x.to == to && legal(*b, stm, x)) implies out@.contains(
                x,
            ) by {
                assert(pseudo_legal(*b, stm, x));
                if x.castling == Castling::NoCastle {
                    assert(captures_canonical(*b, stm, x));
                    assert(x == (Move {
                        from,
                        to,
                        captures: normal_cap,
                        castling: Castling::NoCastle,
                        promotion: None,
                        result: MoveResult::Continue,
                    }));
                } else {
                    assert(castle_ok(*b, stm, x));
                    if x.castling == Castling::Kingside {
                        assert(x.to as int == king_home(stm) + 2 && x.from as int == king_home(
                            stm,
                        ));
                        assert(to == from + 2);
                        assert(x == (Move {
                            from,
                            to,
                            captures: None,
                            castling: Castling::Kingside,
                            promotion: None,
                            result: MoveResult::Continue,
                        }));
                    } else {
                        assert(from >= 2 && to == from - 2);
                        assert(x == (Move {
                            from,
                            to,
                            captures: None,
                            castling: Castling::Queenside,
                            promotion: None,
                            result: MoveResult::Continue,
                        }));
                    }
                }
            }
        }
    } else {
        try_move(
            b,
            stm,
            &mut out,
            Move {
                from,
                to,
                captures: normal_cap,
                castling: Castling::NoCastle,
                promotion: None,
                result: MoveResult::Continue,
            },
        );
    }
    out
}

/// A legal castling move stands only when the king's start, transit and
/// destination squares are unattacked and neither the king nor the
/// chosen rook has ever moved.
pub proof fn lemma_castle_safety(b: BitBoard, stm: Color, m: Move)
    requires
        legal(b, stm, m),
        m.castling != Castling::NoCastle,
    ensures
        !square_attacked(b, opposite(stm), m.from as int),
        !square_attacked(b, opposite(stm), (m.from as int + m.to as int) / 2),
        !square_attacked(b, opposite(stm), m.to as int),
        !bitsq(b.n_moved, m.from as int),
        !bitsq(b.n_moved, crate::rules::castle_rook_from(m)),
{
    assert(castle_ok(b, stm, m));
}

/// Two legal moves that ask for the same origin, destination, castling
/// tag and promotion choice are the same move: the captured square and
/// the outcome tag are derived.
pub proof fn lemma_legal_same_request_unique(b: BitBoard, stm: Color, g1: Move, g2: Move)
    requires
        legal(b, stm, g1),
        legal(b, stm, g2),
        crate::types::same_request(g1, g2),
    ensures
        g1 == g2,
{
    assert(bitsq(b.color_plane(opposite(stm)), g1.to as int) ==> bitsq(b.occ(), g1.to as int));
}

/// The complete legal move set for a board and side to move: a move is
/// in the result exactly when it is legal. An empty result signals
/// checkmate or stalemate depending on check status.
pub fn generate_legal_moves(b: &BitBoard, stm: Color) -> (r: Vec<Move>)
    ensures
        forall|m: Move| #[trigger] r@.contains(m) == legal(*b, stm, m),
{
    let mut out: Vec<Move> = Vec::new();
    for from in 0..64u8
        invariant
            forall|m: Move| #[trigger] out@.contains(m) == (legal(*b, stm, m) && m.from < from),
    {
        for to in 0..64u8
            invariant
                from < 64,
                forall|m: Move| #[trigger] out@.contains(m) == (legal(*b, stm, m) && (m.from < from
                    || (m.from == from && m.to < to))),
        {
            let ghost pre = out@;
            let mut cand = candidate_moves(b, stm, from, to);
            let ghost cs = cand@;
            out.append(&mut cand);
            proof {
                lemma_concat_contains(pre, cs);
            }
        }
    }
    out
}

impl BitBoard {
    /// The union of all squares attacked by `color`'s pieces, ignoring
    /// pins: bit `i` of the result is set exactly when some piece of
    /// `color` attacks square `i`.
    pub fn attack_set_for(&self, color: Color) -> (r: u64)
        ensures
            forall|i: u64| i < 64 ==> bit64(r, i) == square_attacked(*self, color, i as int),
    {
        let mut r: u64 = 0;
        for sq in 0..64u8
            invariant
                forall|j: u64| j < sq ==> bit64(r, j) == square_attacked(*self, color, j as int),
                forall|j: u64| sq <= j < 64 ==> !bit64(r, j),
        {
            if is_square_attacked(self, color, sq) {
                r = r | (1u64 << (sq as u64));
            }
        }
        r
    }

    /// Whether `color`'s king stands on a square the opponent attacks.
    pub fn is_in_check(&self, color: Color) -> (r: bool)
        ensures
            r == in_check(*self, color),
    {
        let own = color_plane_x(self, color);
        let opp = crate::types::other_side(color);
        for sq in 0..64u8
            invariant
                own == self.color_plane(color),
                opp == opposite(color),
                forall|j: int|
                    0 <= j < sq ==> !(bitsq(self.n_king & self.color_plane(color), j)
                        && square_attacked(*self, opposite(color), j)),
        {
            if testbit(self.n_king, sq) && testbit(own, sq) {
                if is_square_attacked(self, opp, sq) {
                    return true;
                }
            }
        }
        false
    }
}

} // verus!
