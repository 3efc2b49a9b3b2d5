use solana_park::{
    confirm_end, confirm_start, create_park_token, create_room, end_game, initialize, join_room,
    pay_and_start, Address, AuthorityHandle, CreateParkToken, CreateRoom, EndGame, GameError,
    GameState, Initialize, JoinRoom, PayAndStart, Room, RoomRecord, RoomStatus,
};

fn addr(byte: u8) -> Address {
    Address([byte; 32])
}

fn fee_accounts() -> PayAndStart {
    PayAndStart { from: addr(10), to: addr(11), gor_mint: addr(12) }
}

fn reward_accounts() -> EndGame {
    EndGame { park_mint: addr(20), player_ata: addr(21) }
}

fn registry() -> GameState {
    let mut slot: Option<GameState> = None;
    initialize(&mut slot, &Initialize { admin: addr(9), server: addr(8) }, &addr(200)).unwrap();
    slot.unwrap()
}

fn authority() -> AuthorityHandle {
    registry().authority(&addr(200)).unwrap()
}

fn room_with(players: u8) -> Room {
    let mut room = create_room(&CreateRoom { host: addr(1) }, 1_700_000_000);
    for i in 0..players {
        join_room(&mut room, &JoinRoom { player: addr(100 + i) }).unwrap();
    }
    room
}

fn active_room() -> Room {
    let mut room = room_with(2);
    confirm_start(&mut room, vec![4, 2], 1_700_000_100, Ok(())).unwrap();
    room
}

#[test]
fn full_game_from_creation_to_reward() {
    let host = addr(1);
    let authority = authority();

    let mut room = create_room(&CreateRoom { host }, 1_700_000_000);
    assert_eq!(join_room(&mut room, &JoinRoom { player: addr(2) }), Ok(()));
    assert_eq!(join_room(&mut room, &JoinRoom { player: addr(3) }), Ok(()));

    let order = pay_and_start(&room, &fee_accounts()).unwrap();
    assert_eq!(order.amount, 1_000_000);
    assert_eq!(order.decimals, 6);
    assert_eq!(order.authority, host);
    assert_eq!(order.from, addr(10));
    assert_eq!(order.to, addr(11));
    assert_eq!(order.mint, addr(12));
    assert_eq!(room.status(), RoomStatus::Waiting);

    assert_eq!(confirm_start(&mut room, vec![1, 2, 3], 1_700_000_100, Ok(())), Ok(()));
    assert_eq!(room.status(), RoomStatus::Active);
    assert!(room.started_at() > 0);
    assert_eq!(room.started_at(), 1_700_000_100);
    assert_eq!(room.selected_maps(), &vec![1, 2, 3]);
    assert_eq!(room.ended_at(), 0);

    let mint = end_game(&room, &authority, &reward_accounts(), addr(2), 10).unwrap();
    assert_eq!(mint.amount, 10 * 1_000_000);
    assert_eq!(mint.mint, addr(20));
    assert_eq!(mint.to, addr(21));
    assert_eq!(mint.player, addr(2));
    assert_eq!(mint.authority, authority);
    assert_eq!(Some(mint.authority), registry().authority(&addr(200)));
    assert_eq!(room.status(), RoomStatus::Active);

    assert_eq!(confirm_end(&mut room, 1_700_000_900, Ok(())), Ok(()));
    assert_eq!(room.status(), RoomStatus::Completed);
    assert!(room.ended_at() > 0);
    assert_eq!(room.ended_at(), 1_700_000_900);
    assert_eq!(room.players(), &vec![addr(2), addr(3)]);
}

#[test]
fn fifth_join_is_refused_and_room_unchanged() {
    let mut room = room_with(4);
    let before = room.clone();
    assert_eq!(join_room(&mut room, &JoinRoom { player: addr(50) }), Err(GameError::RoomFull));
    assert_eq!(room, before);
    assert_eq!(room.players().len(), 4);
    assert_eq!(room.players(), &vec![addr(100), addr(101), addr(102), addr(103)]);
}

#[test]
fn full_room_refuses_in_every_state() {
    let mut room = room_with(4);
    confirm_start(&mut room, vec![], 5, Ok(())).unwrap();
    assert_eq!(join_room(&mut room, &JoinRoom { player: addr(50) }), Err(GameError::RoomFull));
    confirm_end(&mut room, 6, Ok(())).unwrap();
    assert_eq!(join_room(&mut room, &JoinRoom { player: addr(50) }), Err(GameError::RoomFull));
    assert_eq!(room.players().len(), 4);
}

#[test]
fn start_with_one_player_orders_nothing() {
    let mut room = room_with(1);
    let before = room.clone();
    assert_eq!(pay_and_start(&room, &fee_accounts()), Err(GameError::NotEnoughPlayers));
    assert_eq!(confirm_start(&mut room, vec![1], 77, Ok(())), Err(GameError::NotEnoughPlayers));
    assert_eq!(room, before);
    assert_eq!(room.status(), RoomStatus::Waiting);
    assert_eq!(room.started_at(), 0);
    assert!(room.selected_maps().is_empty());
}

#[test]
fn start_with_no_player_is_refused() {
    let mut room = room_with(0);
    assert_eq!(pay_and_start(&room, &fee_accounts()), Err(GameError::NotEnoughPlayers));
    assert_eq!(confirm_start(&mut room, vec![], 77, Ok(())), Err(GameError::NotEnoughPlayers));
    assert_eq!(room.status(), RoomStatus::Waiting);
}

#[test]
fn start_with_exactly_two_players_succeeds() {
    let mut room = room_with(2);
    assert!(pay_and_start(&room, &fee_accounts()).is_ok());
    assert_eq!(confirm_start(&mut room, vec![9], 77, Ok(())), Ok(()));
    assert_eq!(room.status(), RoomStatus::Active);
}

#[test]
fn start_with_three_and_four_players_succeeds() {
    for n in [3, 4] {
        let mut room = room_with(n);
        assert!(pay_and_start(&room, &fee_accounts()).is_ok());
        assert_eq!(confirm_start(&mut room, vec![9], 77, Ok(())), Ok(()));
        assert_eq!(room.status(), RoomStatus::Active);
    }
}

#[test]
fn second_start_fails_with_invalid_room_state() {
    let mut room = active_room();
    let before = room.clone();
    assert_eq!(pay_and_start(&room, &fee_accounts()), Err(GameError::InvalidRoomState));
    assert_eq!(
        confirm_start(&mut room, vec![7, 7], 1_700_000_200, Ok(())),
        Err(GameError::InvalidRoomState)
    );
    assert_eq!(room, before);
    assert_eq!(room.selected_maps(), &vec![4, 2]);
    assert_eq!(room.started_at(), 1_700_000_100);
}

#[test]
fn state_is_checked_before_the_number_of_players() {
    let mut room = room_with(2);
    confirm_start(&mut room, vec![], 5, Ok(())).unwrap();
    confirm_end(&mut room, 6, Ok(())).unwrap();
    assert_eq!(pay_and_start(&room, &fee_accounts()), Err(GameError::InvalidRoomState));
    assert_eq!(confirm_start(&mut room, vec![], 7, Err(3)), Err(GameError::InvalidRoomState));
}

#[test]
fn refused_payment_leaves_the_room_waiting() {
    let mut room = room_with(2);
    let before = room.clone();
    assert_eq!(confirm_start(&mut room, vec![1], 77, Err(17)), Err(GameError::LedgerError(17)));
    assert_eq!(room, before);
    assert_eq!(room.status(), RoomStatus::Waiting);
    assert_eq!(confirm_start(&mut room, vec![1], 78, Ok(())), Ok(()));
    assert_eq!(room.started_at(), 78);
}

#[test]
fn room_refusal_comes_before_ledger_refusal() {
    let mut room = room_with(1);
    assert_eq!(confirm_start(&mut room, vec![1], 77, Err(17)), Err(GameError::NotEnoughPlayers));
    assert_eq!(confirm_end(&mut room, 77, Err(17)), Err(GameError::InvalidRoomState));
}

#[test]
fn end_game_needs_an_active_room() {
    let mut waiting = room_with(2);
    let before = waiting.clone();
    assert_eq!(
        end_game(&waiting, &authority(), &reward_accounts(), addr(100), 10),
        Err(GameError::InvalidRoomState)
    );
    // a reward too large for the ledger is still refused for the state alone
    assert_eq!(
        end_game(&waiting, &authority(), &reward_accounts(), addr(100), u64::MAX),
        Err(GameError::InvalidRoomState)
    );
    assert_eq!(confirm_end(&mut waiting, 99, Ok(())), Err(GameError::InvalidRoomState));
    assert_eq!(waiting, before);
    assert_eq!(waiting.ended_at(), 0);
}

#[test]
fn ended_at_is_set_once() {
    let mut room = active_room();
    assert_eq!(room.ended_at(), 0);
    assert_eq!(confirm_end(&mut room, 1_700_000_500, Ok(())), Ok(()));
    assert_eq!(room.ended_at(), 1_700_000_500);
    let done = room.clone();
    assert_eq!(
        end_game(&room, &authority(), &reward_accounts(), addr(101), 5),
        Err(GameError::InvalidRoomState)
    );
    assert_eq!(confirm_end(&mut room, 1_700_000_999, Ok(())), Err(GameError::InvalidRoomState));
    assert_eq!(room, done);
    assert_eq!(room.ended_at(), 1_700_000_500);
}

#[test]
fn refused_mint_leaves_the_game_running() {
    let mut room = active_room();
    let before = room.clone();
    assert_eq!(confirm_end(&mut room, 1_700_000_500, Err(6)), Err(GameError::LedgerError(6)));
    assert_eq!(room, before);
    assert_eq!(room.status(), RoomStatus::Active);
    assert_eq!(room.ended_at(), 0);
}

#[test]
fn joining_never_touches_the_times() {
    let mut room = room_with(2);
    confirm_start(&mut room, vec![], 5, Ok(())).unwrap();
    confirm_end(&mut room, 6, Ok(())).unwrap();
    assert_eq!(join_room(&mut room, &JoinRoom { player: addr(60) }), Ok(()));
    assert_eq!(room.started_at(), 5);
    assert_eq!(room.ended_at(), 6);
    assert_eq!(room.status(), RoomStatus::Completed);
    assert_eq!(room.players().len(), 3);
}

#[test]
fn reward_is_scaled_by_six_decimals() {
    let room = active_room();
    for (tokens, units) in [
        (0u64, 0u64),
        (1, 1_000_000),
        (10, 10_000_000),
        (18_446_744_073_709, 18_446_744_073_709_000_000),
    ] {
        let order = end_game(&room, &authority(), &reward_accounts(), addr(100), tokens).unwrap();
        assert_eq!(order.amount, units);
    }
}

#[test]
fn rewards_are_signed_by_the_authority_of_the_mint() {
    let registry = registry();
    let authority = registry.authority(&addr(200)).unwrap();
    let room = active_room();
    let token =
        create_park_token(&authority, &CreateParkToken { park_mint: addr(20) });
    let order = end_game(&room, &authority, &reward_accounts(), addr(100), 3).unwrap();
    assert_eq!(order.authority.address(), token.mint_authority);
    assert_eq!(order.authority.bump(), registry.bump);
    assert_eq!(order.mint, token.mint);
    let again = registry.authority(&addr(200)).unwrap();
    let later = end_game(&room, &again, &reward_accounts(), addr(101), 4).unwrap();
    assert_eq!(later.authority, order.authority);
}

#[test]
fn expired_room_neither_starts_nor_ends() {
    let mut room = Room::from_record(RoomRecord {
        host: addr(1),
        players: vec![addr(2), addr(3)],
        status: RoomStatus::Expired,
        selected_maps: vec![],
        created_at: 0,
        expires_at: 1800,
        started_at: 0,
        ended_at: 0,
    })
    .unwrap();
    let before = room.clone();
    assert_eq!(pay_and_start(&room, &fee_accounts()), Err(GameError::InvalidRoomState));
    assert_eq!(confirm_start(&mut room, vec![1], 9, Ok(())), Err(GameError::InvalidRoomState));
    assert_eq!(
        end_game(&room, &authority(), &reward_accounts(), addr(2), 1),
        Err(GameError::InvalidRoomState)
    );
    assert_eq!(confirm_end(&mut room, 9, Ok(())), Err(GameError::InvalidRoomState));
    assert_eq!(room, before);
}

#[test]
fn every_refusal_leaves_the_room_as_it_was() {
    let mut rooms = vec![room_with(0), room_with(1), room_with(4), active_room()];
    let mut done = active_room();
    confirm_end(&mut done, 1_700_000_500, Ok(())).unwrap();
    rooms.push(done);
    for room in rooms.iter_mut() {
        let before = room.clone();
        if join_room(room, &JoinRoom { player: addr(77) }).is_err() {
            assert_eq!(*room, before);
        }
        for answer in [Err(3), Ok(()), Ok(())] {
            let before = room.clone();
            if confirm_start(room, vec![5], 1_700_000_700, answer).is_err() {
                assert_eq!(*room, before);
            }
        }
        for answer in [Err(4), Ok(()), Ok(())] {
            let before = room.clone();
            if confirm_end(room, 1_700_000_800, answer).is_err() {
                assert_eq!(*room, before);
            }
        }
    }
}

#[test]
fn deciding_never_changes_the_room() {
    for room in [room_with(1), room_with(2), active_room()] {
        let before = room.clone();
        let _ = pay_and_start(&room, &fee_accounts());
        let _ = end_game(&room, &authority(), &reward_accounts(), addr(100), 2);
        assert_eq!(room, before);
    }
}
