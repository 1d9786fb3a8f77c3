//! The per-match protocol state machine: it holds the current board,
//! clocks and history, consumes move, draw and resign packets, drives
//! the move generator and rules engine, and resolves terminal states.

use vstd::prelude::*;
use crate::board::{BitBoard, initial_board, initial_board_spec};
use crate::movegen::{generate_legal_moves, legal};
use crate::rules::{
    PositionSig, apply, apply_spec, classify, classify_spec, lemma_apply_preserves_wf,
    position_sig, resets_clock, sig_of,
};
use crate::types::{
    Clock, Color, Move, MoveResult, TimeControl, moves_same_request, opposite, other_side,
    same_request,
};

verus! {

/// Why a match ended.
#[derive(Clone, Copy, Debug, PartialEq, Eq, Structural)]
pub enum GameOutcome {
    Checkmate,
    Stalemate,
    Repetition,
    InsufficientMaterial,
    FiftyMoveRule,
    Resignation,
    DrawAgreement,
    Timeout,
}

/// The state of a match: awaiting the next move, holding a pending draw
/// offer, or finished with an outcome and a winner (none for draws).
/// `Finished` is terminal: no transition leaves it.
#[derive(Clone, Copy, Debug)]
pub enum SessionState {
    AwaitingMove,
    DrawOffered(Color),
    Finished(GameOutcome, Option<Color>),
}

/// Session-local errors: each is reported to the offending side and
/// leaves the session unchanged.
#[derive(Clone, Copy, Debug, PartialEq, Eq, Structural)]
pub enum SessionError {
    WrongTurn,
    IllegalMove,
    OfferPending,
    NoPendingOffer,
    MatchFinished,
    ClockExpired,
}

/// The terminal outcome a classification maps to.
pub open spec fn outcome_for(r: MoveResult) -> GameOutcome {
    match r {
        MoveResult::Checkmate => GameOutcome::Checkmate,
        MoveResult::Stalemate => GameOutcome::Stalemate,
        MoveResult::Repitition => GameOutcome::Repetition,
        MoveResult::InsufficientMaterial => GameOutcome::InsufficientMaterial,
        MoveResult::FiftyMoveRule => GameOutcome::FiftyMoveRule,
        MoveResult::Continue => GameOutcome::Checkmate,
    }
}

/// The winner of a classified terminal position: checkmate is won by
/// the mover, the rest are draws.
pub open spec fn winner_for(r: MoveResult, mover: Color) -> Option<Color> {
    if r == MoveResult::Checkmate {
        Some(mover)
    } else {
        None
    }
}

/// The time charged against the mover for one turn: wall-clock elapsed
/// beyond the per-move grace delay.
pub open spec fn time_charge(elapsed: u64, delay: u32) -> u64 {
    if elapsed > delay as u64 {
        (elapsed - delay as u64) as u64
    } else {
        0
    }
}

/// Addition capped at the counter's maximum.
pub open spec fn sat_add(a: u64, b: u64) -> u64 {
    if a + b > u64::MAX {
        u64::MAX
    } else {
        (a + b) as u64
    }
}

/// One match: the current board, side to move, half-move clock,
/// signature history, remaining time per side, time-control parameters
/// and protocol state.
pub struct MatchSession {
    pub board: BitBoard,
    pub to_move: Color,
    pub halfmove: u64,
    pub history: Vec<PositionSig>,
    pub clock: Clock,
    pub control: TimeControl,
    pub state: SessionState,
}

impl MatchSession {
    /// Session invariant: the board is well formed, and while the match
    /// is live the half-move clock is short of the move-count limit.
    pub open spec fn inv(self) -> bool {
        &&& self.board.wf()
        &&& !(self.state matches SessionState::Finished(_, _)) ==> self.halfmove < 100
    }

    pub open spec fn remaining(self, c: Color) -> u64 {
        match c {
            Color::White => self.clock.white,
            Color::Black => self.clock.black,
        }
    }

    /// A fresh match at the standard initial position, white to move,
    /// both clocks at the time control's starting budget.
    pub fn new(control: TimeControl) -> (s: MatchSession)
        ensures
            s.inv(),
            s.board == initial_board_spec(),
            s.to_move == Color::White,
            s.halfmove == 0,
            s.history@.len() == 1,
            s.history@[0] == sig_of(initial_board_spec(), Color::White),
            s.clock.white == control.start as u64,
            s.clock.black == control.start as u64,
            s.control == control,
            s.state is AwaitingMove,
    {
        let board = initial_board();
        let mut history: Vec<PositionSig> = Vec::new();
        history.push(position_sig(&board, Color::White));
        MatchSession {
            board,
            to_move: Color::White,
            halfmove: 0,
            history,
            clock: Clock { white: control.start as u64, black: control.start as u64 },
            control,
            state: SessionState::AwaitingMove,
        }
    }

    /// Consumes a move packet from `side`, `elapsed` time units after
    /// the side's turn began. Only the origin, destination, castling
    /// and promotion fields of the inbound move are trusted; captured
    /// square and outcome are recomputed. On success the returned move
    /// is the applied one with its outcome tag set to the
    /// classification of the new position.
    pub fn handle_move(&mut self, side: Color, mv: &Move, elapsed: u64) -> (r: Result<
        Move,
        SessionError,
    >)
        requires
            old(self).inv(),
        ensures
            final (self).inv(),
            old(self).state matches SessionState::Finished(_, _) ==> r == Err::<
                Move,
                SessionError,
            >(SessionError::MatchFinished) && *final (self) == *old(self),
            old(self).state matches SessionState::DrawOffered(_) ==> r == Err::<
                Move,
                SessionError,
            >(SessionError::OfferPending) && *final (self) == *old(self),
            old(self).state is AwaitingMove && side != old(self).to_move ==> r == Err::<
                Move,
                SessionError,
            >(SessionError::WrongTurn) && *final (self) == *old(self),
            old(self).state is AwaitingMove && side == old(self).to_move && time_charge(
                elapsed,
                old(self).control.delay,
            ) >= old(self).remaining(side) ==> {
                &&& r == Err::<Move, SessionError>(SessionError::ClockExpired)
                &&& final (self).state == SessionState::Finished(
                    GameOutcome::Timeout,
                    Some(opposite(side)),
                )
                &&& final (self).remaining(side) == 0
                &&& final (self).remaining(opposite(side)) == old(self).remaining(opposite(side))
                &&& final (self).board == old(self).board
                &&& final (self).to_move == old(self).to_move
                &&& final (self).halfmove == old(self).halfmove
                &&& final (self).history@ == old(self).history@
            },
            old(self).state is AwaitingMove && side == old(self).to_move && time_charge(
                elapsed,
                old(self).control.delay,
            ) < old(self).remaining(side) && !(exists|g: Move|
                legal(old(self).board, side, g) && same_request(g, *mv)) ==> r == Err::<
                Move,
                SessionError,
            >(SessionError::IllegalMove) && *final (self) == *old(self),
            old(self).state is AwaitingMove && side == old(self).to_move && time_charge(
                elapsed,
                old(self).control.delay,
            ) < old(self).remaining(side) && (exists|g: Move|
                legal(old(self).board, side, g) && same_request(g, *mv)) ==> {
                &&& r matches Ok(done) && {
                    let played = Move { result: MoveResult::Continue, ..done };
                    let nb = apply_spec(old(self).board, side, played);
                    let verdict = classify_spec(
                        nb,
                        opposite(side),
                        final (self).halfmove,
                        final (self).history@,
                    );
                    &&& legal(old(self).board, side, played)
                    &&& same_request(played, *mv)
                    &&& final (self).board == nb
                    &&& final (self).halfmove == (if resets_clock(old(self).board, played) {
                        0u64
                    } else {
                        (old(self).halfmove + 1) as u64
                    })
                    &&& final (self).history@ == old(self).history@.push(sig_of(nb, opposite(side)))
                    &&& final (self).to_move == opposite(side)
                    &&& final (self).remaining(side) == sat_add(
                        (old(self).remaining(side) - time_charge(
                            elapsed,
                            old(self).control.delay,
                        )) as u64,
                        old(self).control.increment as u64,
                    )
                    &&& final (self).remaining(opposite(side)) == old(self).remaining(
                        opposite(side),
                    )
                    &&& done.result == verdict
                    &&& (verdict == MoveResult::Continue ==> final (self).state is AwaitingMove)
                    &&& (verdict != MoveResult::Continue ==> final (self).state
                        == SessionState::Finished(outcome_for(verdict), winner_for(verdict, side)))
                }
            },
    {
        match self.state {
            SessionState::Finished(_, _) => {
                return Err(SessionError::MatchFinished);
            },
            SessionState::DrawOffered(_) => {
                return Err(SessionError::OfferPending);
            },
            SessionState::AwaitingMove => {},
        }
        if side != self.to_move {
            return Err(SessionError::WrongTurn);
        }
        let delay = self.control.delay as u64;
        let charge: u64 = if elapsed > delay {
            elapsed - delay
        } else {
            0
        };
        let rem: u64 = match side {
            Color::White => self.clock.white,
            Color::Black => self.clock.black,
        };
        if charge >= rem {
            match side {
                Color::White => {
                    self.clock.white = 0;
                },
                Color::Black => {
                    self.clock.black = 0;
                },
            }
            self.state = SessionState::Finished(GameOutcome::Timeout, Some(other_side(side)));
            return Err(SessionError::ClockExpired);
        }
        let moves = generate_legal_moves(&self.board, side);
        let mut found: Option<usize> = None;
        let mut i: usize = 0;
        while i < moves.len()
            invariant
                i <= moves@.len(),
                found matches Some(j) ==> j < moves@.len() && same_request(moves@[j as int], *mv),
                found is None ==> forall|j: int| 0 <= j < i ==> !same_request(moves@[j], *mv),
            decreases moves@.len() - i,
        {
            let done = match found {
                Option::Some(_) => true,
                Option::None => false,
            };
            if !done && moves_same_request(&moves[i], mv) {
                found = Some(i);
            }
            i = i + 1;
        }
        let idx = match found {
            Option::None => {
                proof {
                    if exists|g: Move| legal(self.board, side, g) && same_request(g, *mv) {
                        let g = choose|g: Move|
                            legal(self.board, side, g) && same_request(g, *mv);
                        assert(moves@.contains(g));
                        let j = choose|j: int| 0 <= j < moves@.len() && moves@[j] == g;
                        assert(same_request(moves@[j], *mv));
                    }
                }
                return Err(SessionError::IllegalMove);
            },
            Option::Some(idx) => idx,
        };
        let played = moves[idx];
        proof {
            assert(moves@.contains(moves@[idx as int]));
            assert(legal(self.board, side, played));
            lemma_apply_preserves_wf(self.board, side, played);
        }
        let nb = apply(&self.board, side, &played);
        let resets = crate::bits::testbit(self.board.n_pawn, played.from) || match played.captures {
            Option::Some(_) => true,
            Option::None => false,
        };
        self.halfmove = if resets {
            0
        } else {
            self.halfmove + 1
        };
        let opp = other_side(side);
        let newsig = position_sig(&nb, opp);
        self.board = nb;
        self.to_move = opp;
        self.history.push(newsig);
        let base = rem - charge;
        let inc = self.control.increment as u64;
        let newrem: u64 = if base > u64::MAX - inc {
            u64::MAX
        } else {
            base + inc
        };
        match side {
            Color::White => {
                self.clock.white = newrem;
            },
            Color::Black => {
                self.clock.black = newrem;
            },
        }
        let verdict = classify(&nb, opp, self.halfmove, &self.history);
        if verdict != MoveResult::Continue {
            let winner: Option<Color> = if verdict == MoveResult::Checkmate {
                Some(side)
            } else {
                None
            };
            self.state = SessionState::Finished(
                match verdict {
                    MoveResult::Stalemate => GameOutcome::Stalemate,
                    MoveResult::Repitition => GameOutcome::Repetition,
                    MoveResult::InsufficientMaterial => GameOutcome::InsufficientMaterial,
                    MoveResult::FiftyMoveRule => GameOutcome::FiftyMoveRule,
                    _ => GameOutcome::Checkmate,
                },
                winner,
            );
        }
        Ok(Move { result: verdict, ..played })
    }

    /// The scheduled clock check: authoritative even with no packets
    /// arriving. Fires the timeout transition when the side to move has
    /// exhausted its counter, `elapsed` time units into its turn.
    pub fn check_timeout(&mut self, elapsed: u64) -> (r: bool)
        requires
            old(self).inv(),
        ensures
            final (self).inv(),
            r == (old(self).state is AwaitingMove && time_charge(elapsed, old(self).control.delay)
                >= old(self).remaining(old(self).to_move)),
            r ==> {
                &&& final (self).state == SessionState::Finished(
                    GameOutcome::Timeout,
                    Some(opposite(old(self).to_move)),
                )
                &&& final (self).remaining(old(self).to_move) == 0
                &&& final (self).remaining(opposite(old(self).to_move)) == old(self).remaining(
                    opposite(old(self).to_move),
                )
                &&& final (self).board == old(self).board
                &&& final (self).to_move == old(self).to_move
                &&& final (self).halfmove == old(self).halfmove
                &&& final (self).history@ == old(self).history@
            },
            !r ==> *final (self) == *old(self),
    {
        match self.state {
            SessionState::AwaitingMove => {},
            _ => {
                return false;
            },
        }
        let delay = self.control.delay as u64;
        let charge: u64 = if elapsed > delay {
            elapsed - delay
        } else {
            0
        };
        let rem: u64 = match self.to_move {
            Color::White => self.clock.white,
            Color::Black => self.clock.black,
        };
        if charge >= rem {
            match self.to_move {
                Color::White => {
                    self.clock.white = 0;
                },
                Color::Black => {
                    self.clock.black = 0;
                },
            }
            self.state = SessionState::Finished(
                GameOutcome::Timeout,
                Some(other_side(self.to_move)),
            );
            true
        } else {
            false
        }
    }

    /// A draw offer from either side while a move is awaited.
    pub fn offer_draw(&mut self, side: Color) -> (r: Result<(), SessionError>)
        requires
            old(self).inv(),
        ensures
            final (self).inv(),
            old(self).state is AwaitingMove ==> r == Ok::<(), SessionError>(()) && final (self).state == SessionState::DrawOffered(side) && final (self).board == old(self).board
                && final (self).to_move == old(self).to_move && final (self).halfmove == old(self).halfmove && final (self).history@ == old(self).history@ && final (self).clock == old(self).clock,
            old(self).state matches SessionState::DrawOffered(_) ==> r == Err::<
                (),
                SessionError,
            >(SessionError::OfferPending) && *final (self) == *old(self),
            old(self).state matches SessionState::Finished(_, _) ==> r == Err::<
                (),
                SessionError,
            >(SessionError::MatchFinished) && *final (self) == *old(self),
    {
        match self.state {
            SessionState::AwaitingMove => {
                self.state = SessionState::DrawOffered(side);
                Ok(())
            },
            SessionState::DrawOffered(_) => Err(SessionError::OfferPending),
            SessionState::Finished(_, _) => Err(SessionError::MatchFinished),
        }
    }

    /// Accepting a pending draw offer made by the other side ends the
    /// match as an agreed draw with no winner.
    pub fn accept_draw(&mut self, side: Color) -> (r: Result<(), SessionError>)
        requires
            old(self).inv(),
        ensures
            final (self).inv(),
            (old(self).state matches SessionState::DrawOffered(by) && by != side) ==> r == Ok::<
                (),
                SessionError,
            >(()) && final (self).state == SessionState::Finished(GameOutcome::DrawAgreement, None)
                && final (self).board == old(self).board && final (self).history@ == old(self).history@,
            (old(self).state matches SessionState::DrawOffered(by) && by == side) ==> r == Err::<
                (),
                SessionError,
            >(SessionError::NoPendingOffer) && *final (self) == *old(self),
            old(self).state is AwaitingMove ==> r == Err::<(), SessionError>(
                SessionError::NoPendingOffer,
            ) && *final (self) == *old(self),
            old(self).state matches SessionState::Finished(_, _) ==> r == Err::<
                (),
                SessionError,
            >(SessionError::MatchFinished) && *final (self) == *old(self),
    {
        match self.state {
            SessionState::DrawOffered(by) => {
                if by != side {
                    self.state = SessionState::Finished(GameOutcome::DrawAgreement, None);
                    Ok(())
                } else {
                    Err(SessionError::NoPendingOffer)
                }
            },
            SessionState::AwaitingMove => Err(SessionError::NoPendingOffer),
            SessionState::Finished(_, _) => Err(SessionError::MatchFinished),
        }
    }

    /// Declining a pending draw offer made by the other side returns the
    /// match to awaiting the same side to move.
    pub fn decline_draw(&mut self, side: Color) -> (r: Result<(), SessionError>)
        requires
            old(self).inv(),
        ensures
            final (self).inv(),
            (old(self).state matches SessionState::DrawOffered(by) && by != side) ==> r == Ok::<
                (),
                SessionError,
            >(()) && final (self).state is AwaitingMove && final (self).board == old(self).board
                && final (self).to_move == old(self).to_move && final (self).halfmove == old(self).halfmove && final (self).history@ == old(self).history@ && final (self).clock == old(self).clock,
            (old(self).state matches SessionState::DrawOffered(by) && by == side) ==> r == Err::<
                (),
                SessionError,
            >(SessionError::NoPendingOffer) && *final (self) == *old(self),
            old(self).state is AwaitingMove ==> r == Err::<(), SessionError>(
                SessionError::NoPendingOffer,
            ) && *final (self) == *old(self),
            old(self).state matches SessionState::Finished(_, _) ==> r == Err::<
                (),
                SessionError,
            >(SessionError::MatchFinished) && *final (self) == *old(self),
    {
        match self.state {
            SessionState::DrawOffered(by) => {
                if by != side {
                    self.state = SessionState::AwaitingMove;
                    Ok(())
                } else {
                    Err(SessionError::NoPendingOffer)
                }
            },
            SessionState::AwaitingMove => Err(SessionError::NoPendingOffer),
            SessionState::Finished(_, _) => Err(SessionError::MatchFinished),
        }
    }

    /// A resignation from either side in any non-finished state ends the
    /// match at once in the other side's favor.
    pub fn resign(&mut self, side: Color) -> (r: Result<(), SessionError>)
        requires
            old(self).inv(),
        ensures
            final (self).inv(),
            !(old(self).state matches SessionState::Finished(_, _)) ==> r == Ok::<
                (),
                SessionError,
            >(()) && final (self).state == SessionState::Finished(
                GameOutcome::Resignation,
                Some(opposite(side)),
            ) && final (self).board == old(self).board && final (self).history@ == old(self).history@,
            old(self).state matches SessionState::Finished(_, _) ==> r == Err::<
                (),
                SessionError,
            >(SessionError::MatchFinished) && *final (self) == *old(self),
    {
        match self.state {
            SessionState::Finished(_, _) => Err(SessionError::MatchFinished),
            _ => {
                self.state = SessionState::Finished(
                    GameOutcome::Resignation,
                    Some(other_side(side)),
                );
                Ok(())
            },
        }
    }
}

} // verus!
