use crate::command::{RoomCreate, RoomCreateView, RoomJoin, RoomLeave};
use crate::error::{
    DomainError, DomainErrorKind, DomainResult, RepositoryError, RepositoryErrorKind,
    RepositoryResult,
};
use crate::game::{outside_of_limits_message, Game, GameMinutes, GameStatus, GameView};
use crate::game::{DEFAULT_MAX_LIMIT, DEFAULT_MIN_LIMIT};
use crate::id::{Id, PlayerId};
use crate::room::{
    host_leaves_message, not_exists_message, reports_violation, PlayerCount, Room, WolfCount,
};
use crate::theme::ThemeKind;
use vstd::prelude::*;

verus! {

/// What a room is looked up for.
#[derive(Clone, Copy, Debug, PartialEq, Eq, Structural)]
pub enum RoomAction {
    Delete,
    Join,
    Leave,
    StartGame,
}

/// What is reported when no room has the identifier.
pub open spec fn room_not_found_message(room_id: Seq<char>) -> Seq<char> {
    "room(id "@ + room_id + ") is not found"@
}

/// What is reported when the lookup of a room failed otherwise.
pub open spec fn room_failed_message(action: RoomAction, room_id: Seq<char>) -> Seq<char> {
    match action {
        RoomAction::Delete | RoomAction::Join => "failed to delete room(id "@ + room_id + ")"@,
        RoomAction::Leave | RoomAction::StartGame => "failed find room(id "@ + room_id + ")"@,
    }
}

/// What is reported when no game has the identifier.
pub open spec fn game_not_found_message(game_id: Seq<char>) -> Seq<char> {
    "game("@ + game_id + ") is not found"@
}

/// What is reported when the lookup of a game failed otherwise.
pub open spec fn game_failed_message(game_id: Seq<char>) -> Seq<char> {
    "failed to find game("@ + game_id + ")"@
}

/// Whether `error` reports the failed lookup `cause` with these messages: a
/// lookup that found nothing is reported as not found, every other failure
/// as a failure, and the cause is kept.
pub open spec fn reports_lookup(
    error: DomainError,
    cause: RepositoryError,
    not_found: Seq<char>,
    failed: Seq<char>,
) -> bool {
    &&& error.source == Some(cause)
    &&& if cause.kind == RepositoryErrorKind::NotFound {
        error.kind == DomainErrorKind::Notfound && error.message@ == not_found
    } else {
        error.kind == DomainErrorKind::Fail && error.message@ == failed
    }
}

/// Reports a failed lookup with one of two messages.
pub fn lookup_failed(cause: RepositoryError, not_found: &str, failed: &str) -> (error: DomainError)
    ensures
        reports_lookup(error, cause, not_found@, failed@),
{
    if cause.kind == RepositoryErrorKind::NotFound {
        DomainError::new_with_source(DomainErrorKind::Notfound, not_found, cause)
    } else {
        DomainError::new_with_source(DomainErrorKind::Fail, failed, cause)
    }
}

/// Reports the failed lookup of the room `room_id` for `action`.
pub fn room_lookup_failed(action: RoomAction, room_id: &str, cause: RepositoryError) -> (error:
    DomainError)
    ensures
        reports_lookup(
            error,
            cause,
            room_not_found_message(room_id@),
            room_failed_message(action, room_id@),
        ),
{
    let mut not_found = "room(id ".to_owned();
    not_found.append(room_id);
    not_found.append(") is not found");
    let mut failed = match action {
        RoomAction::Delete | RoomAction::Join => "failed to delete room(id ".to_owned(),
        RoomAction::Leave | RoomAction::StartGame => "failed find room(id ".to_owned(),
    };
    failed.append(room_id);
    failed.append(")");
    lookup_failed(cause, not_found.as_str(), failed.as_str())
}

/// Reports the failed lookup of the game `game_id`.
pub fn game_lookup_failed(game_id: &str, cause: RepositoryError) -> (error: DomainError)
    ensures
        reports_lookup(
            error,
            cause,
            game_not_found_message(game_id@),
            game_failed_message(game_id@),
        ),
{
    let mut not_found = "game(".to_owned();
    not_found.append(game_id);
    not_found.append(") is not found");
    let mut failed = "failed to find game(".to_owned();
    failed.append(game_id);
    failed.append(")");
    lookup_failed(cause, not_found.as_str(), failed.as_str())
}

/// Reports that an aggregate could not be stored, with the cause.
pub fn store_failed(message: &str, cause: RepositoryError) -> (error: DomainError)
    ensures
        error.kind == DomainErrorKind::Fail,
        error.message@ == message@,
        error.source == Some(cause),
{
    DomainError::new_with_source(DomainErrorKind::Fail, message, cause)
}

/// The values of a room to open, each checked.
pub struct RoomValues {
    pub player_count: PlayerCount,
    pub wolf_count: WolfCount,
    pub host_player_id: PlayerId,
    pub game_time: GameMinutes,
    pub theme_kind: ThemeKind,
}

impl View for RoomValues {
    type V = RoomCreateView;

    open spec fn view(&self) -> RoomCreateView {
        RoomCreateView {
            player_count: self.player_count@,
            wolf_count: self.wolf_count@,
            host_player_id: self.host_player_id@,
            game_minutes: self.game_time@,
            theme_kind: self.theme_kind@,
        }
    }
}

/// The message for the first value of a request to open a room that is not
/// accepted, if one is not: the player count, the wolf count, the minutes
/// and the theme kind are looked at in this order.
pub open spec fn refused_value(command: RoomCreateView) -> Option<Seq<char>> {
    if command.player_count == 0 {
        Some("raw_player_count should not be zero"@)
    } else if command.wolf_count == 0 {
        Some("raw_count should not be zero"@)
    } else if !(DEFAULT_MIN_LIMIT <= command.game_minutes <= DEFAULT_MAX_LIMIT) {
        Some(outside_of_limits_message(command.game_minutes))
    } else if command.theme_kind.len() == 0 {
        Some("kind should not be blank"@)
    } else {
        None
    }
}

/// Checks each value of a request to open a room. The values are those of
/// the request, or the first one that is not accepted is reported.
pub fn create_values(command: &RoomCreate) -> (result: DomainResult<RoomValues>)
    ensures
        match result {
            Ok(values) => refused_value(command@) is None && values@ == command@,
            Err(error) => error.kind == DomainErrorKind::InvalidInput && error.source is None
                && refused_value(command@) == Some(error.message@),
        },
{
    let player_count = match PlayerCount::try_new(*command.player_count()) {
        Ok(player_count) => player_count,
        Err(error) => {
            return Err(error);
        },
    };
    let wolf_count = match WolfCount::try_new(*command.wolf_count()) {
        Ok(wolf_count) => wolf_count,
        Err(error) => {
            return Err(error);
        },
    };
    let host_player_id = Id::new(command.host_player_id().as_str());
    let game_time = match GameMinutes::try_new(*command.game_minutes()) {
        Ok(game_time) => game_time,
        Err(error) => {
            return Err(error);
        },
    };
    let theme_kind = match ThemeKind::try_new(command.theme_kind().as_str()) {
        Ok(theme_kind) => theme_kind,
        Err(error) => {
            return Err(error);
        },
    };
    Ok(RoomValues { player_count, wolf_count, host_player_id, game_time, theme_kind })
}

/// The room that was looked up for `action`, or the report of the failed
/// lookup.
pub fn found_room(action: RoomAction, room_id: &str, found: RepositoryResult<Room>) -> (result:
    DomainResult<Room>)
    ensures
        match found {
            Ok(room) => result == Ok::<Room, DomainError>(room),
            Err(cause) => result matches Err(error) && reports_lookup(
                error,
                cause,
                room_not_found_message(room_id@),
                room_failed_message(action, room_id@),
            ),
        },
{
    match found {
        Ok(room) => Ok(room),
        Err(cause) => Err(room_lookup_failed(action, room_id, cause)),
    }
}

/// Lets the player of `command` join the room that was looked up. The room
/// with the player in it is to be stored; a failed lookup and a player whom
/// the room does not take are reported.
pub fn join_room(command: &RoomJoin, found: RepositoryResult<Room>) -> (result: DomainResult<Room>)
    ensures
        match found {
            Err(cause) => result matches Err(error) && reports_lookup(
                error,
                cause,
                room_not_found_message(command@.room_id),
                room_failed_message(RoomAction::Join, command@.room_id),
            ),
            Ok(room) => match result {
                Ok(joined) => {
                    &&& room@.all_players.len() < room@.player_count
                    &&& !room@.all_players.contains(command@.player_id)
                    &&& joined@ == room@.with_players(room@.joined(command@.player_id))
                    &&& joined@.is_valid()
                },
                Err(error) => reports_violation(
                    error,
                    room@.player_count,
                    room@.wolf_count,
                    room@.all_players.push(command@.player_id),
                ),
            },
        },
{
    let mut room = match found_room(RoomAction::Join, command.room_id().as_str(), found) {
        Ok(room) => room,
        Err(error) => {
            return Err(error);
        },
    };
    match room.join_player(Id::new(command.player_id().as_str())) {
        Ok(_) => Ok(room),
        Err(error) => Err(error),
    }
}

/// Lets the player of `command` leave the room that was looked up. The room
/// without the player is to be stored; a failed lookup, the host and a
/// player who is not in the room are reported.
pub fn leave_room(command: &RoomLeave, found: RepositoryResult<Room>) -> (result: DomainResult<
    Room,
>)
    ensures
        match found {
            Err(cause) => result matches Err(error) && reports_lookup(
                error,
                cause,
                room_not_found_message(command@.room_id),
                room_failed_message(RoomAction::Leave, command@.room_id),
            ),
            Ok(room) => match result {
                Ok(left) => {
                    &&& command@.player_id != room@.host_player_id
                    &&& room@.all_players.contains(command@.player_id)
                    &&& left@ == room@.with_players(room@.left(command@.player_id))
                    &&& left@.is_valid()
                },
                Err(error) => if command@.player_id == room@.host_player_id {
                    error.is(
                        DomainErrorKind::InvalidInput,
                        host_leaves_message(command@.player_id),
                    )
                } else {
                    !room@.all_players.contains(command@.player_id) && error.is(
                        DomainErrorKind::InvalidInput,
                        not_exists_message(command@.player_id),
                    )
                },
            },
        },
{
    let mut room = match found_room(RoomAction::Leave, command.room_id().as_str(), found) {
        Ok(room) => room,
        Err(error) => {
            return Err(error);
        },
    };
    let player_id: PlayerId = Id::new(command.player_id().as_str());
    match room.leave_player(&player_id) {
        Ok(_) => Ok(room),
        Err(error) => Err(error),
    }
}

/// Moves the game that was looked up to `to_status`. The game in its new
/// status is to be stored; a failed lookup is reported.
pub fn update_status(game_id: &str, to_status: GameStatus, found: RepositoryResult<Game>) -> (result:
    DomainResult<Game>)
    ensures
        match found {
            Ok(game) => result matches Ok(moved) && moved@ == (GameView {
                status: to_status,
                ..game@
            }),
            Err(cause) => result matches Err(error) && reports_lookup(
                error,
                cause,
                game_not_found_message(game_id@),
                game_failed_message(game_id@),
            ),
        },
{
    match found {
        Ok(game) => {
            let mut game = game;
            match game.set_status(to_status) {
                Ok(_) => Ok(game),
                Err(error) => Err(error),
            }
        },
        Err(cause) => Err(game_lookup_failed(game_id, cause)),
    }
}

} // verus!
