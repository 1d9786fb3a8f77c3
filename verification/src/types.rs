//! Shared value types of the rules engine and the protocol, with the
//! fixed numeric encodings of the wire contract.

use vstd::prelude::*;

verus! {

/// Outcome tag carried on a move. Wire encoding: continue 0, checkmate 1,
/// stalemate 2, repetition 3, insufficient material 4, move-count limit 5.
#[derive(Clone, Copy, Debug, PartialEq, Eq, Structural)]
pub enum MoveResult {
    Continue,
    Checkmate,
    Stalemate,
    Repitition,
    InsufficientMaterial,
    FiftyMoveRule,
}

/// Castling tag. Wire encoding: none 0, kingside 1, queenside 2.
#[derive(Clone, Copy, Debug, PartialEq, Eq, Structural)]
pub enum Castling {
    NoCastle,
    Kingside,
    Queenside,
}

/// Side tag. Wire encoding: white (first mover) 1, black 0.
#[derive(Clone, Copy, Debug, PartialEq, Eq, Structural)]
pub enum Color {
    White,
    Black,
}

/// The six piece kinds a square can hold.
#[derive(Clone, Copy, Debug, PartialEq, Eq, Structural)]
pub enum PieceKind {
    Pawn,
    Knight,
    Bishop,
    Rook,
    Queen,
    King,
}

/// A move: origin and destination square (0-63), the square of a captured
/// piece when there is one (distinct from `to` for en-passant captures),
/// a castling tag, a promotion choice for a pawn reaching the farthest
/// rank, and an outcome tag. The outcome tag is derived output of the
/// rules engine: on an inbound move it is ignored and recomputed.
#[derive(Clone, Copy, Debug)]
pub struct Move {
    pub from: u8,
    pub to: u8,
    pub captures: Option<u8>,
    pub castling: Castling,
    pub promotion: Option<PieceKind>,
    pub result: MoveResult,
}

pub open spec fn opposite(c: Color) -> Color {
    match c {
        Color::White => Color::Black,
        Color::Black => Color::White,
    }
}

/// The other side, for turn order and winner assignment.
pub fn other_side(c: Color) -> (r: Color)
    ensures
        r == opposite(c),
{
    match c {
        Color::White => Color::Black,
        Color::Black => Color::White,
    }
}

pub open spec fn outcome_code_spec(r: MoveResult) -> u8 {
    match r {
        MoveResult::Continue => 0,
        MoveResult::Checkmate => 1,
        MoveResult::Stalemate => 2,
        MoveResult::Repitition => 3,
        MoveResult::InsufficientMaterial => 4,
        MoveResult::FiftyMoveRule => 5,
    }
}

/// Fixed wire encoding of the outcome tag.
pub fn outcome_code(r: MoveResult) -> (c: u8)
    ensures
        c == outcome_code_spec(r),
{
    match r {
        MoveResult::Continue => 0,
        MoveResult::Checkmate => 1,
        MoveResult::Stalemate => 2,
        MoveResult::Repitition => 3,
        MoveResult::InsufficientMaterial => 4,
        MoveResult::FiftyMoveRule => 5,
    }
}

/// Decode of the outcome tag: defined exactly on codes 0-5, and the
/// inverse of `outcome_code` there.
pub fn outcome_from_code(c: u8) -> (r: Option<MoveResult>)
    ensures
        c <= 5 ==> (r matches Some(v) && outcome_code_spec(v) == c),
        c > 5 ==> r is None,
        forall|v: MoveResult| outcome_code_spec(v) == c ==> r == Some(v),
{
    match c {
        0 => Some(MoveResult::Continue),
        1 => Some(MoveResult::Checkmate),
        2 => Some(MoveResult::Stalemate),
        3 => Some(MoveResult::Repitition),
        4 => Some(MoveResult::InsufficientMaterial),
        5 => Some(MoveResult::FiftyMoveRule),
        _ => None,
    }
}

pub open spec fn castling_code_spec(t: Castling) -> u8 {
    match t {
        Castling::NoCastle => 0,
        Castling::Kingside => 1,
        Castling::Queenside => 2,
    }
}

/// Fixed wire encoding of the castling tag.
pub fn castling_code(t: Castling) -> (c: u8)
    ensures
        c == castling_code_spec(t),
{
    match t {
        Castling::NoCastle => 0,
        Castling::Kingside => 1,
        Castling::Queenside => 2,
    }
}

/// Decode of the castling tag: defined exactly on codes 0-2, and the
/// inverse of `castling_code` there.
pub fn castling_from_code(c: u8) -> (r: Option<Castling>)
    ensures
        c <= 2 ==> (r matches Some(v) && castling_code_spec(v) == c),
        c > 2 ==> r is None,
        forall|v: Castling| castling_code_spec(v) == c ==> r == Some(v),
{
    match c {
        0 => Some(Castling::NoCastle),
        1 => Some(Castling::Kingside),
        2 => Some(Castling::Queenside),
        _ => None,
    }
}

pub open spec fn color_code_spec(c: Color) -> u8 {
    match c {
        Color::White => 1,
        Color::Black => 0,
    }
}

/// Fixed wire encoding of the side tag: the first mover is 1.
pub fn color_code(c: Color) -> (r: u8)
    ensures
        r == color_code_spec(c),
{
    match c {
        Color::White => 1,
        Color::Black => 0,
    }
}

/// Decode of the side tag: defined exactly on codes 0 and 1, and the
/// inverse of `color_code` there.
pub fn color_from_code(c: u8) -> (r: Option<Color>)
    ensures
        c <= 1 ==> (r matches Some(v) && color_code_spec(v) == c),
        c > 1 ==> r is None,
        forall|v: Color| color_code_spec(v) == c ==> r == Some(v),
{
    match c {
        0 => Some(Color::Black),
        1 => Some(Color::White),
        _ => None,
    }
}

/// Two inbound or generated moves ask for the same thing: origin,
/// destination, castling tag and promotion choice agree. The captured
/// square and the outcome tag are derived server-side and do not take
/// part in the comparison.
pub open spec fn same_request(a: Move, b: Move) -> bool {
    &&& a.from == b.from
    &&& a.to == b.to
    &&& a.castling == b.castling
    &&& a.promotion == b.promotion
}

pub fn moves_same_request(a: &Move, b: &Move) -> (r: bool)
    ensures
        r == same_request(*a, *b),
{
    let promo_eq = match (a.promotion, b.promotion) {
        (Option::None, Option::None) => true,
        (Option::Some(x), Option::Some(y)) => x == y,
        _ => false,
    };
    a.from == b.from && a.to == b.to && a.castling == b.castling && promo_eq
}

/// Rating window a match request is willing to meet.
pub struct RatingRange {
    pub low: u16,
    pub high: u16,
}

/// Time control parameters, in milliseconds: starting budget per side,
/// increment credited on each completed move, and per-move grace delay
/// during which no time is deducted.
#[derive(Clone, Copy, Debug)]
pub struct TimeControl {
    pub start: u32,
    pub increment: u32,
    pub delay: u32,
}

/// Remaining time per side, in milliseconds.
#[derive(Clone, Copy, Debug, PartialEq, Eq, Structural)]
pub struct Clock {
    pub white: u64,
    pub black: u64,
}

/// Summary of a user, as handed to the opposing client.
pub struct QuickLoadUser {
    pub id: String,
    pub username: String,
    pub rating: u16,
}

/// Rating deltas a match would settle, per result.
pub struct EloChange {
    pub win: u16,
    pub lose: u16,
    pub draw: u16,
}

/// Snapshot of one running game, as carried by keep-alive traffic.
pub struct Game {
    pub gameid: String,
    pub userplays: Color,
    pub toplay: Color,
    pub opponent: QuickLoadUser,
    pub clock: Clock,
}

} // verus!
