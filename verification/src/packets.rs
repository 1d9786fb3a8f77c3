//! Wire-contract payload shapes. These structs carry solely the data
//! portion of each packet; transport and encoding are owned by the
//! collaborator layer. Times ride the wire as integer milliseconds.

use vstd::prelude::*;
use crate::types::{Color, EloChange, Game, Move, QuickLoadUser, RatingRange, TimeControl};

verus! {

pub struct RequestGameVsUserPacket {
    pub ratingrange: RatingRange,
    pub timecontrol: TimeControl,
}

pub struct KeepAlivePacket {
    pub games: Vec<Game>,
}

pub struct AcknowledgePacket {
    pub pid: u64,
}

pub struct LogonAccountPacket {
    pub uid: String,
}

pub struct LogonAnonymousPacket {}

pub struct OfferDrawPacket {
    pub gameid: String,
}

pub struct AcceptDrawPacket {
    pub gameid: String,
}

pub struct MovePacket {
    pub mv: Move,
    pub gameid: String,
}

pub struct DeclineDrawPacket {
    pub gameid: String,
}

pub struct ResignPacket {
    pub gameid: String,
}

pub struct AcknowledgeLogonPacket {
    pub games: Vec<Game>,
}

pub struct AssignTempIDPacket {
    pub temp_id: String,
}

/// A session-local error surfaced to the offending connection: a
/// user-facing message and a separate debug message.
pub struct ServerErrPacket {
    pub msg: String,
    pub debug_msg: String,
}

pub struct GameFoundPacket {
    pub opponent: QuickLoadUser,
    pub elo_change: EloChange,
    pub play: Color,
    pub gameid: String,
}

pub struct UserMakeMovePacket {
    pub available_moves: Vec<Move>,
    pub gameid: String,
    pub position: String,
    pub timeremaining: u64,
}

pub struct OpponentMovePacket {
    pub mv: Move,
    pub gameid: String,
    pub position: String,
}

pub struct OpponentResignsPacket {
    pub gameid: String,
}

pub struct OpponentDrawRequestPacket {
    pub gameid: String,
}

pub struct OpponentDeclineDrawRequestPacket {
    pub gameid: String,
}

pub struct OpponentAcceptDrawRequestPacket {
    pub gameid: String,
}

pub struct TerminateConnectionPacket {}

pub enum ServerSendPackets {
    AcknowledgeLogonPacket(AcknowledgeLogonPacket),
    AssignTempIDPacket(AssignTempIDPacket),
    ServerErrPacket(ServerErrPacket),
    GameFoundPacket(GameFoundPacket),
    AcknowledgePacket(AcknowledgePacket),
    UserMakeMovePacket(UserMakeMovePacket),
    OpponentMovePacket(OpponentMovePacket),
    OpponentResignsPacket(OpponentResignsPacket),
    OpponentDrawRequestPacket(OpponentDrawRequestPacket),
    OpponentDeclineDrawRequestPacket(OpponentDeclineDrawRequestPacket),
    OpponentAcceptDrawRequestPacket(OpponentAcceptDrawRequestPacket),
    TerminateConnectionPacket(TerminateConnectionPacket),
    KeepAlivePacket(KeepAlivePacket),
}

pub enum ServerRecievePackets {
    RequestGameVsUserPacket(RequestGameVsUserPacket),
    AcknowledgePacket(AcknowledgePacket),
    LogonAccountPacket(LogonAccountPacket),
    LogonAnonymousPacket(LogonAnonymousPacket),
    OfferDrawPacket(OfferDrawPacket),
    AcceptDrawPacket(AcceptDrawPacket),
    DeclineDrawPacket(DeclineDrawPacket),
    ResignPacket(ResignPacket),
    MovePacket(MovePacket),
    TerminateConnectionPacket(TerminateConnectionPacket),
}

} // verus!
