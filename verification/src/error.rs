use vstd::prelude::*;

verus! {

/// Why an operation was refused. A refused operation changes nothing.
#[derive(Clone, Copy, Debug, PartialEq, Eq)]
pub enum GameError {
    /// The room already holds as many players as it admits.
    RoomFull,
    /// A room needs more players before it can start.
    NotEnoughPlayers,
    /// The room is not in the state that the operation needs.
    InvalidRoomState,
    /// The registry has been set up before.
    AlreadyInitialized,
    /// The ledger refused a transfer or a mint; the code is the ledger's own.
    LedgerError(u64),
}

} // verus!
