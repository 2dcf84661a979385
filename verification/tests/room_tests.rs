use mwwolf::error::{DomainError, DomainErrorKind, DomainResult};
use mwwolf::game::GameMinutes;
use mwwolf::id::{Id, PlayerId};
use mwwolf::room::{PlayerCount, Room, WolfCount};
use mwwolf::theme::ThemeKind;

fn invalid(message: &str) -> DomainError {
    DomainError::new(DomainErrorKind::InvalidInput, message)
}

fn players(raws: &[&str]) -> Vec<PlayerId> {
    raws.iter().map(|raw| Id::new(raw)).collect()
}

fn room(player_count: usize, wolf_count: usize, all_players: &[&str]) -> DomainResult<Room> {
    Room::try_new(
        Id::new("room1"),
        PlayerCount::try_new(player_count).unwrap(),
        WolfCount::try_new(wolf_count).unwrap(),
        Id::new("player1"),
        players(all_players),
        GameMinutes::try_new(4).unwrap(),
        ThemeKind::try_new("theme1").unwrap(),
    )
}

fn validate(player_count: usize, wolf_count: usize, all_players: &[&str]) -> DomainResult<()> {
    Room::validate(
        &PlayerCount::try_new(player_count).unwrap(),
        &WolfCount::try_new(wolf_count).unwrap(),
        &players(all_players),
    )
}

#[test]
fn room_try_new_works() {
    let room = Room::try_new(
        Id::new("romm1"),
        PlayerCount::try_new(5).unwrap(),
        WolfCount::try_new(4).unwrap(),
        Id::new("player1"),
        vec![],
        GameMinutes::try_new(3).unwrap(),
        ThemeKind::try_new("theme1").unwrap(),
    )
    .unwrap();
    assert_eq!(room.id().raw_id(), "romm1");
    assert_eq!(*room.player_count().raw_player_count(), 5);
    assert_eq!(*room.wolf_count().raw_count(), 4);
    assert_eq!(room.host_player_id().raw_id(), "player1");
    assert!(room.all_players().is_empty());
    assert_eq!(room.game_time().raw_minutes(), 3);
    assert_eq!(room.theme_kind().raw_kind(), "theme1");
}

#[test]
fn room_try_new_works_second_room() {
    let room = Room::try_new(
        Id::new("romm2"),
        PlayerCount::try_new(6).unwrap(),
        WolfCount::try_new(5).unwrap(),
        Id::new("player2"),
        vec![],
        GameMinutes::try_new(4).unwrap(),
        ThemeKind::try_new("theme2").unwrap(),
    )
    .unwrap();
    assert_eq!(room.id().raw_id(), "romm2");
    assert_eq!(*room.player_count().raw_player_count(), 6);
    assert_eq!(*room.wolf_count().raw_count(), 5);
    assert_eq!(room.host_player_id().raw_id(), "player2");
    assert!(room.all_players().is_empty());
    assert_eq!(room.game_time().raw_minutes(), 4);
    assert_eq!(room.theme_kind().raw_kind(), "theme2");
    assert_eq!(room.clone(), room);
}

#[test]
fn room_try_new_works_as_many_wolves_as_players() {
    let result = Room::try_new(
        Id::new("romm2"),
        PlayerCount::try_new(5).unwrap(),
        WolfCount::try_new(5).unwrap(),
        Id::new("player2"),
        vec![],
        GameMinutes::try_new(4).unwrap(),
        ThemeKind::try_new("theme2").unwrap(),
    );
    assert_eq!(result, Err(invalid("player_count must be bigger than wolf count")));
}

#[test]
fn room_try_new_keeps_the_order_of_the_players() {
    let room = room(3, 1, &["player3", "player1", "player2"]).unwrap();
    assert_eq!(room.all_players(), &players(&["player3", "player1", "player2"]));
}

#[test]
fn room_try_new_refuses_a_player_who_stands_twice_apart() {
    assert_eq!(
        room(4, 1, &["player1", "player2", "player1"]),
        Err(invalid("all_players must not be duplicate"))
    );
}

#[test]
fn room_try_new_reports_the_first_broken_rule() {
    assert_eq!(
        room(2, 2, &["player1", "player1", "player1"]),
        Err(invalid("player_count must be bigger than wolf count"))
    );
    assert_eq!(
        room(2, 1, &["player1", "player1", "player1"]),
        Err(invalid(
            "player count is begger than max player count. current player count is 3, max player count is 2"
        ))
    );
    assert_eq!(
        room(3, 1, &["player1", "player1", "player1"]),
        Err(invalid("all_players must not be duplicate"))
    );
}

#[test]
fn room_validate_works_success() {
    assert_eq!(validate(3, 1, &["player1", "player2", "player3"]), Ok(()));
}

#[test]
fn room_validate_works_wolf_count_not_below_player_count() {
    assert_eq!(
        validate(3, 3, &["player1", "player2", "player3"]),
        Err(invalid("player_count must be bigger than wolf count"))
    );
}

#[test]
fn room_validate_works_more_players_than_the_room_takes() {
    assert_eq!(
        validate(3, 1, &["player1", "player2", "player3", "player4"]),
        Err(invalid(
            "player count is begger than max player count. current player count is 4, max player count is 3"
        ))
    );
}

#[test]
fn room_has_duplicate_players_works() {
    assert!(!Room::has_duplicate_players(&players(&[])));
    assert!(!Room::has_duplicate_players(&players(&["a"])));
    assert!(!Room::has_duplicate_players(&players(&["a", "b", "c"])));
    assert!(Room::has_duplicate_players(&players(&["a", "a"])));
    assert!(Room::has_duplicate_players(&players(&["a", "b", "a"])));
    assert!(Room::has_duplicate_players(&players(&["c", "a", "b", "b"])));
}

#[test]
fn room_join_player_works() {
    let mut room = room(3, 1, &["player1"]).unwrap();
    let result = room.join_player(Id::new("player2"));
    assert_eq!(room.all_players(), &players(&["player1", "player2"]));
    assert_eq!(result, Ok(()));
}

#[test]
fn room_join_player_works_room_is_full() {
    let mut room = room(3, 1, &["player1", "player2", "player3"]).unwrap();
    let result = room.join_player(Id::new("player4"));
    assert_eq!(room.all_players(), &players(&["player1", "player2", "player3"]));
    assert_eq!(
        result,
        Err(invalid(
            "player count is begger than max player count. current player count is 4, max player count is 3"
        ))
    );
}

#[test]
fn room_join_player_works_player_is_duplicate() {
    let mut room = room(4, 1, &["player1", "player2", "player3"]).unwrap();
    let result = room.join_player(Id::new("player3"));
    assert_eq!(room.all_players(), &players(&["player1", "player2", "player3"]));
    assert_eq!(result, Err(invalid("all_players must not be duplicate")));
}

#[test]
fn room_join_player_sorts_the_players() {
    let mut room = room(5, 1, &["player3", "player1"]).unwrap();
    assert_eq!(room.join_player(Id::new("player2")), Ok(()));
    assert_eq!(room.all_players(), &players(&["player1", "player2", "player3"]));
    assert_eq!(room.join_player(Id::new("new_player1")), Ok(()));
    assert_eq!(
        room.all_players(),
        &players(&["new_player1", "player1", "player2", "player3"])
    );
}

#[test]
fn room_join_player_leaves_an_unsorted_room_alone_when_it_fails() {
    let mut room = room(2, 1, &["player3", "player1"]).unwrap();
    assert!(room.join_player(Id::new("player2")).is_err());
    assert_eq!(room.all_players(), &players(&["player3", "player1"]));
    assert!(room.join_player(Id::new("player3")).is_err());
    assert_eq!(room.all_players(), &players(&["player3", "player1"]));
}

#[test]
fn room_leave_player_works() {
    let mut room = room(3, 1, &["player1", "player2"]).unwrap();
    let result = room.leave_player(&Id::new("player2"));
    assert_eq!(room.all_players(), &players(&["player1"]));
    assert_eq!(result, Ok(()));
}

#[test]
fn room_leave_player_works_can_not_leave_host() {
    let mut room = room(3, 1, &["player1", "player2"]).unwrap();
    let result = room.leave_player(&Id::new("player1"));
    assert_eq!(room.all_players(), &players(&["player1", "player2"]));
    assert_eq!(result, Err(invalid("player_id:player1 is host")));
}

#[test]
fn room_leave_player_refuses_a_stranger() {
    let mut room = room(3, 1, &["player1", "player2"]).unwrap();
    let result = room.leave_player(&Id::new("player9"));
    assert_eq!(room.all_players(), &players(&["player1", "player2"]));
    assert_eq!(result, Err(invalid("not exists player_id:player9")));
}

#[test]
fn room_leave_player_refuses_the_host_who_is_not_in_the_room() {
    let mut room = room(3, 1, &["player2"]).unwrap();
    let result = room.leave_player(&Id::new("player1"));
    assert_eq!(room.all_players(), &players(&["player2"]));
    assert_eq!(result, Err(invalid("player_id:player1 is host")));
}

#[test]
fn room_leave_player_keeps_the_order_of_the_others() {
    let mut room = room(4, 1, &["player3", "player1", "player2"]).unwrap();
    assert_eq!(room.leave_player(&Id::new("player3")), Ok(()));
    assert_eq!(room.all_players(), &players(&["player1", "player2"]));
}

#[test]
fn room_join_then_leave_restores_the_sorted_players() {
    let mut room = room(4, 1, &["player3", "player1", "player2"]).unwrap();
    assert_eq!(room.join_player(Id::new("player0")), Ok(()));
    assert_eq!(
        room.all_players(),
        &players(&["player0", "player1", "player2", "player3"])
    );
    assert_eq!(room.leave_player(&Id::new("player0")), Ok(()));
    assert_eq!(room.all_players(), &players(&["player1", "player2", "player3"]));
}
