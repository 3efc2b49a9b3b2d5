//! The accounts that each operation names, as far as its decision reads
//! them. The room and the registry are handed over beside them.

use crate::address::Address;
use vstd::prelude::*;

verus! {

/// The accounts named when the registry is set up.
#[derive(Clone, Copy, Debug, PartialEq, Eq)]
pub struct Initialize {
    /// Who administers the game.
    pub admin: Address,
    /// The wallet of the game server.
    pub server: Address,
}

/// The accounts named when the reward token is created.
#[derive(Clone, Copy, Debug, PartialEq, Eq)]
pub struct CreateParkToken {
    /// The account that becomes the reward mint.
    pub park_mint: Address,
}

/// The accounts named when a room is opened.
#[derive(Clone, Copy, Debug, PartialEq, Eq)]
pub struct CreateRoom {
    /// Who opens the room.
    pub host: Address,
}

/// The accounts named when a player joins a room.
#[derive(Clone, Copy, Debug, PartialEq, Eq)]
pub struct JoinRoom {
    /// Who joins.
    pub player: Address,
}

/// The accounts named when a room is started.
#[derive(Clone, Copy, Debug, PartialEq, Eq)]
pub struct PayAndStart {
    /// The token account that the entry fee is taken from.
    pub from: Address,
    /// The token account of the house, which receives the fee.
    pub to: Address,
    /// The mint of the token in which the fee is paid.
    pub gor_mint: Address,
}

/// The accounts named when a game is ended.
#[derive(Clone, Copy, Debug, PartialEq, Eq)]
pub struct EndGame {
    /// The reward mint.
    pub park_mint: Address,
    /// The token account of the player who is rewarded.
    pub player_ata: Address,
}

} // verus!
