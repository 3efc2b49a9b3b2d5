use crate::address::Address;
use crate::context::{CreateRoom, EndGame, JoinRoom, PayAndStart};
use crate::error::GameError;
use crate::ledger::{MintOrder, TransferOrder};
use crate::authority::AuthorityHandle;
use crate::registry::REWARD_UNIT;
use vstd::prelude::*;

verus! {

/// Most players that a room admits.
pub const MAX_PLAYERS: usize = 4;

/// Fewest players with which a room can start.
pub const MIN_PLAYERS: usize = 2;

/// Seconds between the opening of a room and its expiry.
pub const ROOM_LIFETIME: i64 = 1800;

/// The entry fee in base units: one token of the fee mint.
pub const ENTRY_FEE: u64 = 1_000_000;

/// The decimals of the fee mint.
pub const FEE_DECIMALS: u8 = 6;

/// Where a room stands in its life.
#[derive(Clone, Copy, Debug, PartialEq, Eq, Structural)]
pub enum RoomStatus {
    /// Open: players may gather, the game has not begun.
    Waiting,
    /// The entry fee is paid and the game runs.
    Active,
    /// The game is over.
    Completed,
    /// The room ran out of time before it started.
    Expired,
}

/// A room as a mathematical value.
pub struct RoomView {
    pub host: Address,
    pub players: Seq<Address>,
    pub status: RoomStatus,
    pub selected_maps: Seq<u8>,
    pub created_at: int,
    pub expires_at: int,
    pub started_at: int,
    pub ended_at: int,
}

impl RoomView {
    /// What holds of every room, whatever has been done to it.
    pub open spec fn wf(self) -> bool {
        &&& self.players.len() <= MAX_PLAYERS
        &&& self.expires_at == self.created_at + ROOM_LIFETIME
        &&& (self.status is Waiting || self.status is Expired) ==> {
            &&& self.selected_maps.len() == 0
            &&& self.started_at == 0
            &&& self.ended_at == 0
        }
        &&& self.status is Active ==> {
            &&& self.players.len() >= MIN_PLAYERS
            &&& self.ended_at == 0
        }
        &&& self.status is Completed ==> self.players.len() >= MIN_PLAYERS
    }

    /// The room that `host` opens at the time `now`.
    pub open spec fn created(host: Address, now: int) -> RoomView {
        RoomView {
            host,
            players: Seq::empty(),
            status: RoomStatus::Waiting,
            selected_maps: Seq::empty(),
            created_at: now,
            expires_at: now + ROOM_LIFETIME,
            started_at: 0,
            ended_at: 0,
        }
    }

    /// Why nobody can join this room, if anything stands in the way.
    pub open spec fn join_refusal(self) -> Option<GameError> {
        if self.players.len() >= MAX_PLAYERS {
            Some(GameError::RoomFull)
        } else {
            None
        }
    }

    /// This room with `player` as its newest member.
    pub open spec fn joined(self, player: Address) -> RoomView {
        RoomView { players: self.players.push(player), ..self }
    }

    /// What `join_room` answers and what it leaves of this room.
    pub open spec fn join(self, player: Address) -> (Result<(), GameError>, RoomView) {
        match self.join_refusal() {
            Some(e) => (Err(e), self),
            None => (Ok(()), self.joined(player)),
        }
    }

    /// Why this room cannot start, if anything stands in the way. The state
    /// is looked at first, the number of players second.
    pub open spec fn start_refusal(self) -> Option<GameError> {
        if !(self.status is Waiting) {
            Some(GameError::InvalidRoomState)
        } else if self.players.len() < MIN_PLAYERS {
            Some(GameError::NotEnoughPlayers)
        } else {
            None
        }
    }

    /// The payment that starting this room takes: the entry fee, from and to
    /// the accounts named, debited on the signature of the room's host.
    pub open spec fn entry_fee(self, accounts: PayAndStart) -> TransferOrder {
        TransferOrder {
            from: accounts.from,
            to: accounts.to,
            mint: accounts.gor_mint,
            authority: self.host,
            amount: ENTRY_FEE,
            decimals: FEE_DECIMALS,
        }
    }

    /// What `pay_and_start` answers for this room.
    pub open spec fn start_order(self, accounts: PayAndStart) -> Result<TransferOrder, GameError> {
        match self.start_refusal() {
            Some(e) => Err(e),
            None => Ok(self.entry_fee(accounts)),
        }
    }

    /// This room once it has started at the time `now` on the maps `maps`.
    pub open spec fn started(self, maps: Seq<u8>, now: int) -> RoomView {
        RoomView { status: RoomStatus::Active, selected_maps: maps, started_at: now, ..self }
    }

    /// What `confirm_start` answers and what it leaves of this room, when the
    /// ledger's answer to the payment was `payment`. The room's own refusal
    /// comes before the ledger's.
    pub open spec fn start(self, maps: Seq<u8>, now: int, payment: Result<(), u64>) -> (
        Result<(), GameError>,
        RoomView,
    ) {
        match (self.start_refusal(), payment) {
            (Some(e), _) => (Err(e), self),
            (None, Err(code)) => (Err(GameError::LedgerError(code)), self),
            (None, Ok(_)) => (Ok(()), self.started(maps, now)),
        }
    }

    /// Why the game in this room cannot be ended, if anything stands in the
    /// way.
    pub open spec fn end_refusal(self) -> Option<GameError> {
        if !(self.status is Active) {
            Some(GameError::InvalidRoomState)
        } else {
            None
        }
    }

    /// This room once its game has ended at the time `now`.
    pub open spec fn completed(self, now: int) -> RoomView {
        RoomView { status: RoomStatus::Completed, ended_at: now, ..self }
    }

    /// What `confirm_end` answers and what it leaves of this room, when the
    /// ledger's answer to the mint was `minted`. The room's own refusal comes
    /// before the ledger's.
    pub open spec fn end(self, now: int, minted: Result<(), u64>) -> (
        Result<(), GameError>,
        RoomView,
    ) {
        match (self.end_refusal(), minted) {
            (Some(e), _) => (Err(e), self),
            (None, Err(code)) => (Err(GameError::LedgerError(code)), self),
            (None, Ok(_)) => (Ok(()), self.completed(now)),
        }
    }

    /// What comes back when a record with these fields is taken in: the room
    /// with the same fields, if they describe one.
    pub open spec fn restored(self) -> Option<RoomView> {
        if self.wf() {
            Some(self)
        } else {
            None
        }
    }
}

/// One game session: who plays, where the session stands and when it got
/// there.
///
/// Every room satisfies `RoomView::wf`. A room is made by `create_room` or
/// taken from a record by `Room::from_record`, and changed by the operations
/// of this module only.
#[derive(Debug, PartialEq, Eq)]
pub struct Room {
    host: Address,
    players: Vec<Address>,
    status: RoomStatus,
    selected_maps: Vec<u8>,
    created_at: i64,
    expires_at: i64,
    started_at: i64,
    ended_at: i64,
}

impl View for Room {
    type V = RoomView;

    closed spec fn view(&self) -> RoomView {
        RoomView {
            host: self.host,
            players: self.players@,
            status: self.status,
            selected_maps: self.selected_maps@,
            created_at: self.created_at as int,
            expires_at: self.expires_at as int,
            started_at: self.started_at as int,
            ended_at: self.ended_at as int,
        }
    }
}

impl Room {
    #[verifier::type_invariant]
    spec fn inv(self) -> bool {
        self@.wf()
    }
}

/// A room as it is kept in storage: the same fields, open to everyone and
/// bound by nothing. `Room::from_record` takes a record back in if it
/// describes a room.
#[derive(Debug, PartialEq, Eq)]
pub struct RoomRecord {
    pub host: Address,
    pub players: Vec<Address>,
    pub status: RoomStatus,
    pub selected_maps: Vec<u8>,
    pub created_at: i64,
    pub expires_at: i64,
    pub started_at: i64,
    pub ended_at: i64,
}

impl View for RoomRecord {
    type V = RoomView;

    open spec fn view(&self) -> RoomView {
        RoomView {
            host: self.host,
            players: self.players@,
            status: self.status,
            selected_maps: self.selected_maps@,
            created_at: self.created_at as int,
            expires_at: self.expires_at as int,
            started_at: self.started_at as int,
            ended_at: self.ended_at as int,
        }
    }
}

/// A vector of the same items in the same order.
fn copied<T: Copy>(items: &Vec<T>) -> (copy: Vec<T>)
    ensures
        copy@ == items@,
{
    let mut copy: Vec<T> = Vec::new();
    let mut i: usize = 0;
    while i < items.len()
        invariant
            i <= items@.len(),
            copy@ == items@.take(i as int),
        decreases items@.len() - i,
    {
        copy.push(items[i]);
        i += 1;
    }
    copy
}

impl Room {
    /// The record of this room: every field as it stands.
    pub fn to_record(&self) -> (record: RoomRecord)
        ensures
            record@ == self@,
            record@.restored() == Some(self@),
    {
        proof {
            use_type_invariant(self);
        }
        RoomRecord {
            host: self.host,
            players: copied(&self.players),
            status: self.status,
            selected_maps: copied(&self.selected_maps),
            created_at: self.created_at,
            expires_at: self.expires_at,
            started_at: self.started_at,
            ended_at: self.ended_at,
        }
    }

    /// The room that a record describes, with every field as the record has
    /// it; `None` for a record that describes no room.
    pub fn from_record(record: RoomRecord) -> (room: Option<Room>)
        ensures
            match room {
                Some(room) => record@.restored() == Some(room@),
                None => record@.restored() is None,
            },
    {
        let timed = record.created_at <= i64::MAX - ROOM_LIFETIME && record.expires_at
            == record.created_at + ROOM_LIFETIME;
        let unstarted = record.selected_maps.len() == 0 && record.started_at == 0 && record.ended_at
            == 0;
        let enough = record.players.len() >= MIN_PLAYERS;
        let sound = match record.status {
            RoomStatus::Waiting => unstarted,
            RoomStatus::Expired => unstarted,
            RoomStatus::Active => enough && record.ended_at == 0,
            RoomStatus::Completed => enough,
        };
        if record.players.len() <= MAX_PLAYERS && timed && sound {
            Some(
                Room {
                    host: record.host,
                    players: record.players,
                    status: record.status,
                    selected_maps: record.selected_maps,
                    created_at: record.created_at,
                    expires_at: record.expires_at,
                    started_at: record.started_at,
                    ended_at: record.ended_at,
                },
            )
        } else {
            None
        }
    }

    /// Who opened the room.
    pub fn host(&self) -> (host: Address)
        ensures
            host == self@.host,
    {
        self.host
    }

    /// Who has joined, in the order of joining: never more than
    /// `MAX_PLAYERS`.
    pub fn players(&self) -> (players: &Vec<Address>)
        ensures
            players@ == self@.players,
            players@.len() <= MAX_PLAYERS,
    {
        proof {
            use_type_invariant(self);
        }
        &self.players
    }

    /// Where the room stands.
    pub fn status(&self) -> (status: RoomStatus)
        ensures
            status == self@.status,
    {
        self.status
    }

    /// The maps that the game is played on: none before the room starts.
    pub fn selected_maps(&self) -> (maps: &Vec<u8>)
        ensures
            maps@ == self@.selected_maps,
    {
        &self.selected_maps
    }

    /// When the room was opened.
    pub fn created_at(&self) -> (at: i64)
        ensures
            at == self@.created_at,
    {
        self.created_at
    }

    /// When the room expires: `ROOM_LIFETIME` seconds after it was opened.
    pub fn expires_at(&self) -> (at: i64)
        ensures
            at == self@.expires_at,
            at == self@.created_at + ROOM_LIFETIME,
    {
        proof {
            use_type_invariant(self);
        }
        self.expires_at
    }

    /// When the room started; zero before that.
    pub fn started_at(&self) -> (at: i64)
        ensures
            at == self@.started_at,
    {
        self.started_at
    }

    /// When the game ended; zero before that.
    pub fn ended_at(&self) -> (at: i64)
        ensures
            at == self@.ended_at,
    {
        self.ended_at
    }
}

impl Clone for RoomRecord {
    fn clone(&self) -> (record: RoomRecord)
        ensures
            record@ == self@,
    {
        RoomRecord {
            host: self.host,
            players: copied(&self.players),
            status: self.status,
            selected_maps: copied(&self.selected_maps),
            created_at: self.created_at,
            expires_at: self.expires_at,
            started_at: self.started_at,
            ended_at: self.ended_at,
        }
    }
}

impl Clone for Room {
    fn clone(&self) -> (room: Room)
        ensures
            room@ == self@,
    {
        proof {
            use_type_invariant(self);
        }
        Room {
            host: self.host,
            players: copied(&self.players),
            status: self.status,
            selected_maps: copied(&self.selected_maps),
            created_at: self.created_at,
            expires_at: self.expires_at,
            started_at: self.started_at,
            ended_at: self.ended_at,
        }
    }
}

/// Opens a room for `accounts.host` at the time `now`: nobody has joined, the
/// room waits, and it expires `ROOM_LIFETIME` seconds later.
pub fn create_room(accounts: &CreateRoom, now: i64) -> (room: Room)
    requires
        now + ROOM_LIFETIME <= i64::MAX,
    ensures
        room@ == RoomView::created(accounts.host, now as int),
        room@.wf(),
{
    Room {
        host: accounts.host,
        players: Vec::new(),
        status: RoomStatus::Waiting,
        selected_maps: Vec::new(),
        created_at: now,
        expires_at: now + ROOM_LIFETIME,
        started_at: 0,
        ended_at: 0,
    }
}

/// Adds `accounts.player` to the room, after those who joined before. A full
/// room refuses with `RoomFull` and stays as it is.
pub fn join_room(room: &mut Room, accounts: &JoinRoom) -> (res: Result<(), GameError>)
    ensures
        (res, final(room)@) == old(room)@.join(accounts.player),
        old(room)@.wf(),
        final(room)@.wf(),
{
    proof {
        use_type_invariant(&*room);
    }
    if room.players.len() >= MAX_PLAYERS {
        return Err(GameError::RoomFull);
    }
    // The longer list is put in place whole, so that the room is a room at every moment.
    let mut players = copied(&room.players);
    players.push(accounts.player);
    room.players = players;
    Ok(())
}

/// Decides whether the room can start and, if it can, what has to be paid
/// first. The room itself is left alone: it starts with `confirm_start`, once
/// the ledger has answered.
pub fn pay_and_start(room: &Room, accounts: &PayAndStart) -> (res: Result<TransferOrder, GameError>)
    ensures
        res == room@.start_order(*accounts),
        room@.wf(),
{
    proof {
        use_type_invariant(room);
    }
    if room.status != RoomStatus::Waiting {
        return Err(GameError::InvalidRoomState);
    }
    if room.players.len() < MIN_PLAYERS {
        return Err(GameError::NotEnoughPlayers);
    }
    Ok(
        TransferOrder {
            from: accounts.from,
            to: accounts.to,
            mint: accounts.gor_mint,
            authority: room.host,
            amount: ENTRY_FEE,
            decimals: FEE_DECIMALS,
        },
    )
}

/// Starts the room after the ledger has answered the order of
/// `pay_and_start`.
///
/// The room starts only if it still can and the payment went through: then it
/// is active, plays on `maps` and has started at `now`. Otherwise it stays as
/// it is, and the result says why: the room's own refusal comes first, the
/// ledger's after it.
pub fn confirm_start(room: &mut Room, maps: Vec<u8>, now: i64, payment: Result<(), u64>) -> (res:
    Result<(), GameError>)
    ensures
        (res, final(room)@) == old(room)@.start(maps@, now as int, payment),
        old(room)@.wf(),
        final(room)@.wf(),
{
    proof {
        use_type_invariant(&*room);
    }
    if room.status != RoomStatus::Waiting {
        return Err(GameError::InvalidRoomState);
    }
    if room.players.len() < MIN_PLAYERS {
        return Err(GameError::NotEnoughPlayers);
    }
    match payment {
        Err(code) => Err(GameError::LedgerError(code)),
        Ok(_) => {
            room.status = RoomStatus::Active;
            room.selected_maps = maps;
            room.started_at = now;
            Ok(())
        },
    }
}

/// Decides whether the game in the room can be ended and, if it can, what
/// reward has to be minted first. The room itself is left alone: the game ends
/// with `confirm_end`, once the ledger has answered.
///
/// The order credits `accounts.player_ata` with `tokens` reward tokens, that
/// is `tokens * REWARD_UNIT` base units of `accounts.park_mint`, and is signed
/// by `authority`, the handle that only the registry gives out.
pub fn end_game(
    room: &Room,
    authority: &AuthorityHandle,
    accounts: &EndGame,
    player: Address,
    tokens: u64,
) -> (res: Result<MintOrder, GameError>)
    requires
        room@.end_refusal() is None ==> tokens * REWARD_UNIT <= u64::MAX,
    ensures
        match room@.end_refusal() {
            Some(e) => res == Err::<MintOrder, GameError>(e),
            None => {
                &&& res matches Ok(order)
                &&& order.is_reward_of(*authority, *accounts, player, tokens)
            },
        },
        room@.wf(),
{
    proof {
        use_type_invariant(room);
    }
    if room.status != RoomStatus::Active {
        return Err(GameError::InvalidRoomState);
    }
    Ok(
        MintOrder {
            mint: accounts.park_mint,
            to: accounts.player_ata,
            player,
            authority: *authority,
            amount: tokens * REWARD_UNIT,
        },
    )
}

/// Ends the game after the ledger has answered the order of `end_game`.
///
/// The game ends only if it still can and the reward was minted: then the
/// room is completed and has ended at `now`. Otherwise the room stays as it
/// is, and the result says why: the room's own refusal comes first, the
/// ledger's after it.
pub fn confirm_end(room: &mut Room, now: i64, minted: Result<(), u64>) -> (res: Result<
    (),
    GameError,
>)
    ensures
        (res, final(room)@) == old(room)@.end(now as int, minted),
        old(room)@.wf(),
        final(room)@.wf(),
{
    proof {
        use_type_invariant(&*room);
    }
    if room.status != RoomStatus::Active {
        return Err(GameError::InvalidRoomState);
    }
    match minted {
        Err(code) => Err(GameError::LedgerError(code)),
        Ok(_) => {
            room.status = RoomStatus::Completed;
            room.ended_at = now;
            Ok(())
        },
    }
}

} // verus!
