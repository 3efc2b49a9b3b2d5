//! Game sessions with token incentives: rooms that players join, a host who
//! pays the entry fee to start, and rewards minted under a derived authority
//! when a game ends.
//!
//! The library decides; it never moves tokens itself. Each operation that
//! involves the token ledger is split into a decision, which yields the order
//! that the ledger has to carry out, and a confirmation, which takes the
//! ledger's answer and changes the room only if the order went through:
//! `pay_and_start` and `confirm_start`, `end_game` and `confirm_end`. The time
//! is handed in by the caller.
//!
//! - `room`: the room, its states and the operations on it.
//! - `registry`: the registry, set up once, and the reward mint.
//! - `authority`: the minting authority, derived from the registry's seed.
//! - `ledger`: the orders that go to the ledger.
//! - `context`: the accounts that each operation names.
//! - `laws`: what holds of rooms and of the registry whatever is done.

pub mod address;
pub mod authority;
pub mod context;
pub mod error;
pub mod laws;
pub mod ledger;
pub mod registry;
pub mod room;

pub use address::Address;
pub use authority::{AuthorityHandle, GAME_SEED};
pub use context::{CreateParkToken, CreateRoom, EndGame, Initialize, JoinRoom, PayAndStart};
pub use error::GameError;
pub use ledger::{MintOrder, PlayerScore, TransferOrder};
pub use registry::{
    create_park_token, initialize, initialize_with_bump, GameState, RewardMint, TokenMetadata,
};
pub use room::{
    confirm_end, confirm_start, create_room, end_game, join_room, pay_and_start, Room, RoomRecord,
    RoomStatus, RoomView,
};
