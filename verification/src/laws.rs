//! What holds of rooms and of the registry whatever is done to them, stated
//! over the values that the contracts of the operations speak of.

use crate::address::Address;
use crate::authority::{
    authority_address, canonical_bump, gives_authority, lemma_largest_bump, AuthorityHandle,
};
use crate::context::{EndGame, Initialize, PayAndStart};
use crate::error::GameError;
use crate::ledger::{MintOrder, TransferOrder};
use crate::registry::{registry_after, GameState, RewardMint, REWARD_DECIMALS, REWARD_UNIT};
use crate::room::{RoomView, ENTRY_FEE, FEE_DECIMALS, MAX_PLAYERS, MIN_PLAYERS};
use vstd::arithmetic::power::pow;
use vstd::prelude::*;

verus! {

/// A new room is a room, and whatever an operation leaves of a room is a
/// room again: no room ever holds more than `MAX_PLAYERS` players, and none
/// leaves the bounds that `RoomView::wf` draws.
pub proof fn lemma_rooms_stay_rooms(
    room: RoomView,
    host: Address,
    player: Address,
    maps: Seq<u8>,
    now: int,
    answer: Result<(), u64>,
)
    requires
        room.wf(),
    ensures
        RoomView::created(host, now).wf(),
        room.join(player).1.wf(),
        room.start(maps, now, answer).1.wf(),
        room.end(now, answer).1.wf(),
        room.players.len() <= MAX_PLAYERS,
{
}

/// A room with `MAX_PLAYERS` players takes no more: joining is refused with
/// `RoomFull` and the room stays as it is. With fewer players the newcomer
/// is added at the end and nothing else changes.
pub proof fn lemma_join_fills_up_to_capacity(room: RoomView, player: Address)
    ensures
        room.players.len() == MAX_PLAYERS ==> room.join(player) == (
            Err::<(), GameError>(GameError::RoomFull),
            room,
        ),
        room.players.len() < MAX_PLAYERS ==> {
            &&& room.join(player).0 is Ok
            &&& room.join(player).1 == room.joined(player)
            &&& room.join(player).1.players == room.players.push(player)
        },
{
}

/// After four players have joined a new room, the fifth is refused with
/// `RoomFull`, and the four stay who they were.
pub proof fn lemma_fifth_join_is_refused(
    host: Address,
    now: int,
    first: Address,
    second: Address,
    third: Address,
    fourth: Address,
    fifth: Address,
)
    ensures
        ({
            let full = RoomView::created(host, now).join(first).1.join(second).1.join(third).1.join(
                fourth,
            ).1;
            &&& full.players == seq![first, second, third, fourth]
            &&& full.join(fifth) == (Err::<(), GameError>(GameError::RoomFull), full)
        }),
{
    let two = RoomView::created(host, now).join(first).1.join(second).1;
    let full = two.join(third).1.join(fourth).1;
    assert(full.players =~= seq![first, second, third, fourth]);
}

/// A room never starts with fewer than `MIN_PLAYERS` players: no payment is
/// ordered and the room stays as it is. A waiting room with `MIN_PLAYERS`
/// players or more is told what to pay, and starts once that is paid.
pub proof fn lemma_start_takes_two_players(
    room: RoomView,
    accounts: PayAndStart,
    maps: Seq<u8>,
    now: int,
    payment: Result<(), u64>,
)
    ensures
        room.players.len() < MIN_PLAYERS ==> {
            &&& room.start_order(accounts) is Err
            &&& room.start(maps, now, payment).0 is Err
            &&& room.start(maps, now, payment).1 == room
        },
        room.status is Waiting && room.players.len() < MIN_PLAYERS ==> {
            &&& room.start_order(accounts) == Err::<TransferOrder, GameError>(
                GameError::NotEnoughPlayers,
            )
            &&& room.start(maps, now, payment).0 == Err::<(), GameError>(
                GameError::NotEnoughPlayers,
            )
        },
        room.status is Waiting && room.players.len() >= MIN_PLAYERS ==> {
            &&& room.start_order(accounts) == Ok::<TransferOrder, GameError>(
                room.entry_fee(accounts),
            )
            &&& payment is Ok ==> room.start(maps, now, payment) == (
                Ok::<(), GameError>(()),
                room.started(maps, now),
            )
        },
{
}

/// A room starts from `Waiting` and from no other state, and therefore once:
/// in any other state both steps are refused with `InvalidRoomState`, and a
/// room that has started is in another state.
pub proof fn lemma_start_happens_once(
    room: RoomView,
    accounts: PayAndStart,
    maps: Seq<u8>,
    now: int,
    payment: Result<(), u64>,
    again: PayAndStart,
    other_maps: Seq<u8>,
    later: int,
    other_payment: Result<(), u64>,
)
    ensures
        !(room.status is Waiting) ==> {
            &&& room.start_order(accounts) == Err::<TransferOrder, GameError>(
                GameError::InvalidRoomState,
            )
            &&& room.start(maps, now, payment) == (
                Err::<(), GameError>(GameError::InvalidRoomState),
                room,
            )
        },
        room.start(maps, now, payment).0 is Ok ==> {
            let active = room.start(maps, now, payment).1;
            &&& active.status is Active
            &&& active.selected_maps == maps
            &&& active.started_at == now
            &&& active.start_order(again) == Err::<TransferOrder, GameError>(
                GameError::InvalidRoomState,
            )
            &&& active.start(other_maps, later, other_payment) == (
                Err::<(), GameError>(GameError::InvalidRoomState),
                active,
            )
        },
{
}

/// Whatever is refused changes nothing: a room that has refused a player, a
/// start or an end is the room it was, and a registry that has refused to be
/// set up again is the registry it was.
pub proof fn lemma_refusal_changes_nothing(
    room: RoomView,
    player: Address,
    maps: Seq<u8>,
    now: int,
    answer: Result<(), u64>,
    slot: Option<GameState>,
    accounts: Initialize,
    bump: u8,
)
    ensures
        room.join(player).0 is Err ==> room.join(player).1 == room,
        room.start(maps, now, answer).0 is Err ==> room.start(maps, now, answer).1 == room,
        room.end(now, answer).0 is Err ==> room.end(now, answer).1 == room,
        registry_after(slot, accounts, bump).0 is Err ==> registry_after(slot, accounts, bump).1
            == slot,
{
}

/// If the ledger refuses the payment or the mint, the room stays as it is and
/// the refusal is handed on with the ledger's code.
pub proof fn lemma_ledger_refusal_changes_nothing(
    room: RoomView,
    maps: Seq<u8>,
    now: int,
    code: u64,
)
    ensures
        room.start(maps, now, Err(code)).1 == room,
        room.start(maps, now, Err(code)).0 is Err,
        room.start_refusal() is None ==> room.start(maps, now, Err(code)).0 == Err::<(), GameError>(
            GameError::LedgerError(code),
        ),
        room.end(now, Err(code)).1 == room,
        room.end(now, Err(code)).0 is Err,
        room.end_refusal() is None ==> room.end(now, Err(code)).0 == Err::<(), GameError>(
            GameError::LedgerError(code),
        ),
{
}

/// A game ends from `Active` and from no other state, and therefore once: in
/// any other state the end is refused with `InvalidRoomState`, and a room
/// whose game has ended is in another state.
pub proof fn lemma_end_happens_once(
    room: RoomView,
    now: int,
    minted: Result<(), u64>,
    later: int,
    minted_again: Result<(), u64>,
)
    ensures
        !(room.status is Active) ==> room.end(now, minted) == (
            Err::<(), GameError>(GameError::InvalidRoomState),
            room,
        ),
        room.status is Active && minted is Ok ==> room.end(now, minted) == (
            Ok::<(), GameError>(()),
            room.completed(now),
        ),
        room.end(now, minted).0 is Ok ==> {
            let done = room.end(now, minted).1;
            &&& done.status is Completed
            &&& done.ended_at == now
            &&& done.end(later, minted_again) == (
                Err::<(), GameError>(GameError::InvalidRoomState),
                done,
            )
        },
{
}

/// The time at which a game ended is written once. It is zero as long as the
/// game has not ended; the end that succeeds writes it; and nothing that is
/// done to the room afterwards changes it.
pub proof fn lemma_ended_at_is_written_once(
    room: RoomView,
    player: Address,
    maps: Seq<u8>,
    now: int,
    answer: Result<(), u64>,
)
    requires
        room.wf(),
    ensures
        !(room.status is Completed) ==> room.ended_at == 0,
        !(room.status is Completed) ==> room.join(player).1.ended_at == 0,
        !(room.status is Completed) ==> room.start(maps, now, answer).1.ended_at == 0,
        room.status is Completed ==> {
            &&& room.join(player).1.ended_at == room.ended_at
            &&& room.start(maps, now, answer).1.ended_at == room.ended_at
            &&& room.end(now, answer).1.ended_at == room.ended_at
        },
{
}

/// A record that was written from a room is taken in again, and gives the
/// room back with every field as it was, the maps of a room that has not
/// started included.
pub proof fn lemma_record_round_trip(room: RoomView)
    requires
        room.wf(),
    ensures
        room.restored() == Some(room),
        (room.status is Waiting || room.status is Expired) ==> {
            room.restored().unwrap().selected_maps == Seq::<u8>::empty()
        },
{
    if room.status is Waiting || room.status is Expired {
        assert(room.selected_maps =~= Seq::<u8>::empty());
    }
}

/// The registry is set up once: the first call fills the slot with what was
/// asked for, and every later call is refused with `AlreadyInitialized` and
/// leaves the registry as the first call made it.
pub proof fn lemma_registry_is_set_up_once(
    slot: Option<GameState>,
    accounts: Initialize,
    bump: u8,
    other: Initialize,
    other_bump: u8,
)
    ensures
        slot is None ==> registry_after(slot, accounts, bump) == (
            Ok::<(), GameError>(()),
            Some(GameState { admin: accounts.admin, server_wallet: accounts.server, bump }),
        ),
        ({
            let first = registry_after(slot, accounts, bump).1;
            &&& first is Some
            &&& registry_after(first, other, other_bump) == (
                Err::<(), GameError>(GameError::AlreadyInitialized),
                first,
            )
        }),
{
}

/// The seed that `initialize` stores is the canonical one: a stored bump
/// other than 0 gives an authority under the program, no larger bump does,
/// and if any bump from 255 down to 1 gives one, the stored bump is not 0.
pub proof fn lemma_registry_stores_the_canonical_seed(
    accounts: Initialize,
    program: Address,
    bump: u8,
)
    ensures
        ({
            let stored = registry_after(None, accounts, canonical_bump(program)).1.unwrap().bump;
            &&& stored == canonical_bump(program)
            &&& stored >= 1 ==> authority_address(stored, program) is Some
            &&& bump > stored ==> authority_address(bump, program) is None
            &&& bump >= 1 && authority_address(bump, program) is Some ==> stored >= bump
        }),
{
    lemma_largest_bump(u8::MAX as int, if bump >= 1 { bump } else { 1 }, gives_authority(program));
}

/// Rewards are signed by the authority of the reward mint and by no other:
/// with one handle, the address that the mint is created with and the address
/// that signs a mint order are one, and a handle is what the registry's seed
/// gives under the program, never a key of someone's choosing.
pub proof fn lemma_rewards_are_signed_by_the_mint_authority(
    state: GameState,
    program: Address,
    authority: AuthorityHandle,
    token: RewardMint,
    mint: Address,
    order: MintOrder,
    accounts: EndGame,
    player: Address,
    tokens: u64,
)
    requires
        authority.is_derived(state.bump, program),
        token.is_reward_mint_of(authority, mint),
        order.is_reward_of(authority, accounts, player, tokens),
    ensures
        order.authority.spec_address() == token.mint_authority,
        token.freeze_authority == Some(order.authority.spec_address()),
        token.metadata.update_authority == Some(order.authority.spec_address()),
        order.authority.spec_bump() == state.bump,
        authority_address(state.bump, program) == Some(token.mint_authority@),
{
}

/// A seed gives at most one authority under a program: two handles derived
/// from one bump under one program are the same handle.
pub proof fn lemma_one_seed_one_authority(
    first: AuthorityHandle,
    second: AuthorityHandle,
    bump: u8,
    program: Address,
)
    requires
        first.is_derived(bump, program),
        second.is_derived(bump, program),
    ensures
        first == second,
{
    AuthorityHandle::lemma_same_parts(first, second);
    Address::lemma_same_bytes(first.spec_address(), second.spec_address());
}

/// One token is ten to the power of the decimals in base units, for the
/// reward mint and for the entry fee, which is one token.
pub proof fn lemma_units_follow_decimals()
    ensures
        REWARD_UNIT == pow(10, REWARD_DECIMALS as nat),
        ENTRY_FEE == 1 * pow(10, FEE_DECIMALS as nat),
{
    reveal_with_fuel(pow, 7);
}

} // verus!
