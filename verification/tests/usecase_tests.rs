use mwwolf::command::{RoomCreate, RoomJoin, RoomLeave};
use mwwolf::error::{
    DomainError, DomainErrorKind, DomainResult, RepositoryError, RepositoryErrorKind,
};
use mwwolf::game::{CitizenGroup, Game, GameMinutes, GameStatus, VoteBox, WolfGroup};
use mwwolf::id::{Id, PlayerId};
use mwwolf::room::{PlayerCount, Room, WolfCount};
use mwwolf::theme::{ThemeKind, Word};
use mwwolf::time::Timestamp;
use mwwolf::usecase::{
    create_values, found_room, game_lookup_failed, join_room, leave_room, lookup_failed,
    room_lookup_failed, store_failed, update_status, RoomAction,
};

fn players(raws: &[&str]) -> Vec<PlayerId> {
    raws.iter().map(|raw| Id::new(raw)).collect()
}

fn room(all_players: &[&str]) -> Room {
    Room::try_new(
        Id::new("room1"),
        PlayerCount::try_new(3).unwrap(),
        WolfCount::try_new(1).unwrap(),
        Id::new("host1"),
        players(all_players),
        GameMinutes::try_new(3).unwrap(),
        ThemeKind::try_new("kind1").unwrap(),
    )
    .unwrap()
}

fn create(command: RoomCreate) -> DomainResult<Room> {
    let values = create_values(&command)?;
    Room::try_new(
        Id::new("room1"),
        values.player_count,
        values.wolf_count,
        values.host_player_id,
        vec![],
        values.game_time,
        values.theme_kind,
    )
}

fn game(status: GameStatus) -> Game {
    Game::try_new(
        Id::new("game1"),
        Id::new("room1"),
        Id::new("theme1"),
        Timestamp::new(1633835594, 0),
        WolfGroup::new(
            vec![Id::new("player1"), Id::new("player2")],
            Word::try_new("wolf_word").unwrap(),
        ),
        CitizenGroup::new(
            vec![Id::new("player3"), Id::new("player4"), Id::new("player5")],
            Word::try_new("citizen_word").unwrap(),
        ),
        VoteBox::new(vec![]),
        status,
    )
    .unwrap()
}

fn not_found() -> RepositoryError {
    RepositoryError::new(RepositoryErrorKind::NotFound, "nothing there")
}

fn broken() -> RepositoryError {
    RepositoryError::new(RepositoryErrorKind::Fail, "storage is down")
}

#[test]
fn create_room_impl_ok_works() {
    let room = create(RoomCreate::new(4, 1, "hoge".into(), 3, "foo".into())).unwrap();
    assert_eq!(room.id().raw_id(), "room1");
    assert_eq!(*room.player_count().raw_player_count(), 4);
    assert_eq!(*room.wolf_count().raw_count(), 1);
    assert_eq!(room.host_player_id().raw_id(), "hoge");
    assert!(room.all_players().is_empty());
    assert_eq!(room.game_time().raw_minutes(), 3);
    assert_eq!(room.theme_kind().raw_kind(), "foo");
}

#[test]
fn create_room_impl_ok_works_as_many_wolves_as_players() {
    assert_eq!(
        create(RoomCreate::new(3, 3, "hoge".into(), 3, "foo".into())),
        Err(DomainError::new(
            DomainErrorKind::InvalidInput,
            "player_count must be bigger than wolf count"
        ))
    );
}

#[test]
fn create_values_reports_the_first_refused_value() {
    let invalid = |message: &str| DomainError::new(DomainErrorKind::InvalidInput, message);
    let refused = |command: RoomCreate| create_values(&command).err();
    assert_eq!(
        refused(RoomCreate::new(0, 0, "h".into(), 0, "".into())),
        Some(invalid("raw_player_count should not be zero"))
    );
    assert_eq!(
        refused(RoomCreate::new(1, 0, "h".into(), 0, "".into())),
        Some(invalid("raw_count should not be zero"))
    );
    assert_eq!(
        refused(RoomCreate::new(1, 1, "h".into(), 0, "".into())),
        Some(invalid("0 is outside of limits. the range are min:1 ~ max:60"))
    );
    assert_eq!(
        refused(RoomCreate::new(1, 1, "h".into(), 1, "".into())),
        Some(invalid("kind should not be blank"))
    );
    assert_eq!(refused(RoomCreate::new(1, 1, "".into(), 1, "k".into())), None);
}

#[test]
fn join_room_ok_works() {
    let command = RoomJoin::new("room1".into(), "new_player1".into());
    assert_eq!(
        join_room(&command, Ok(room(&["player1"]))),
        Ok(room(&["new_player1", "player1"]))
    );
}

#[test]
fn join_room_reports_a_full_room() {
    let command = RoomJoin::new("room1".into(), "player4".into());
    assert_eq!(
        join_room(&command, Ok(room(&["player1", "player2", "player3"]))),
        Err(DomainError::new(
            DomainErrorKind::InvalidInput,
            "player count is begger than max player count. current player count is 4, max player count is 3"
        ))
    );
}

#[test]
fn join_room_reports_a_failed_lookup() {
    let command = RoomJoin::new("room1".into(), "new_player1".into());
    assert_eq!(
        join_room(&command, Err(not_found())),
        Err(DomainError::new_with_source(
            DomainErrorKind::Notfound,
            "room(id room1) is not found",
            not_found()
        ))
    );
    assert_eq!(
        join_room(&command, Err(broken())),
        Err(DomainError::new_with_source(
            DomainErrorKind::Fail,
            "failed to delete room(id room1)",
            broken()
        ))
    );
}

#[test]
fn leave_room_ok_works() {
    let command = RoomLeave::new("room1".into(), "leave_player1".into());
    assert_eq!(
        leave_room(&command, Ok(room(&["leave_player1", "player1"]))),
        Ok(room(&["player1"]))
    );
}

#[test]
fn leave_room_reports_the_host_and_a_stranger() {
    assert_eq!(
        leave_room(&RoomLeave::new("room1".into(), "host1".into()), Ok(room(&["host1"]))),
        Err(DomainError::new(DomainErrorKind::InvalidInput, "player_id:host1 is host"))
    );
    assert_eq!(
        leave_room(&RoomLeave::new("room1".into(), "player9".into()), Ok(room(&["host1"]))),
        Err(DomainError::new(DomainErrorKind::InvalidInput, "not exists player_id:player9"))
    );
}

#[test]
fn leave_room_reports_a_failed_lookup() {
    let command = RoomLeave::new("room7".into(), "player1".into());
    assert_eq!(
        leave_room(&command, Err(not_found())),
        Err(DomainError::new_with_source(
            DomainErrorKind::Notfound,
            "room(id room7) is not found",
            not_found()
        ))
    );
    assert_eq!(
        leave_room(&command, Err(broken())),
        Err(DomainError::new_with_source(
            DomainErrorKind::Fail,
            "failed find room(id room7)",
            broken()
        ))
    );
}

#[test]
fn start_game_room_ok_works() {
    let found = found_room(
        RoomAction::StartGame,
        "room1",
        Ok(room(&["leave_player1", "player1"])),
    );
    assert_eq!(found, Ok(room(&["leave_player1", "player1"])));
    assert_eq!(
        found_room(RoomAction::StartGame, "room1", Err(broken())),
        Err(DomainError::new_with_source(
            DomainErrorKind::Fail,
            "failed find room(id room1)",
            broken()
        ))
    );
}

#[test]
fn delete_room_reports_a_failed_lookup() {
    assert_eq!(
        room_lookup_failed(RoomAction::Delete, "room1", not_found()),
        DomainError::new_with_source(
            DomainErrorKind::Notfound,
            "room(id room1) is not found",
            not_found()
        )
    );
    assert_eq!(
        room_lookup_failed(RoomAction::Delete, "room1", broken()),
        DomainError::new_with_source(
            DomainErrorKind::Fail,
            "failed to delete room(id room1)",
            broken()
        )
    );
}

#[test]
fn update_status_works() {
    assert_eq!(
        update_status("game1", GameStatus::Voting, Ok(game(GameStatus::Talking))),
        Ok(game(GameStatus::Voting))
    );
}

#[test]
fn update_status_reports_a_failed_lookup() {
    assert_eq!(
        update_status("game1", GameStatus::Voting, Err(not_found())),
        Err(DomainError::new_with_source(
            DomainErrorKind::Notfound,
            "game(game1) is not found",
            not_found()
        ))
    );
    assert_eq!(
        game_lookup_failed("game1", broken()),
        DomainError::new_with_source(
            DomainErrorKind::Fail,
            "failed to find game(game1)",
            broken()
        )
    );
}

#[test]
fn failures_keep_their_cause() {
    assert_eq!(
        store_failed("cannnot store room", broken()),
        DomainError::new_with_source(DomainErrorKind::Fail, "cannnot store room", broken())
    );
    assert_eq!(
        lookup_failed(not_found(), "none", "broken"),
        DomainError::new_with_source(DomainErrorKind::Notfound, "none", not_found())
    );
    assert_eq!(
        lookup_failed(broken(), "none", "broken"),
        DomainError::new_with_source(DomainErrorKind::Fail, "broken", broken())
    );
}

#[test]
fn set_status_moves_the_game_anywhere() {
    let mut game = game(GameStatus::Ended);
    assert_eq!(game.set_status(GameStatus::Talking), Ok(()));
    assert_eq!(*game.status(), GameStatus::Talking);
}
