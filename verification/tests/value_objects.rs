use chrono::TimeZone;
use mwwolf::error::{DomainError, DomainErrorKind};
use mwwolf::game::{GameMinutes, GameStatus};
use mwwolf::id::Id;
use mwwolf::player::{Player, PlayerKind, PlayerName};
use mwwolf::room::{PlayerCount, WolfCount};
use mwwolf::theme::{Theme, ThemeKind, Word};
use mwwolf::time::Timestamp;

fn invalid(message: &str) -> DomainError {
    DomainError::new(DomainErrorKind::InvalidInput, message)
}

fn datetime(year: i32, month: u32, day: u32, hour: u32, min: u32, sec: u32) -> Timestamp {
    let at = chrono_tz::Japan
        .with_ymd_and_hms(year, month, day, hour, min, sec)
        .single()
        .unwrap();
    Timestamp::new(at.timestamp(), at.timestamp_subsec_nanos())
}

#[test]
fn player_name_try_new_test() {
    assert_eq!(PlayerName::try_new("name").unwrap().raw(), "name");
    assert_eq!(PlayerName::try_new("name"), PlayerName::try_new("name"));
}

#[test]
fn player_name_try_new_test_blank() {
    assert_eq!(PlayerName::try_new(""), Err(invalid("name should not be blank")));
}

#[test]
fn theme_kind_try_new_works() {
    assert_eq!(ThemeKind::try_new("hoge").unwrap().raw_kind(), "hoge");
}

#[test]
fn theme_kind_try_new_works_blank() {
    assert_eq!(ThemeKind::try_new(""), Err(invalid("kind should not be blank")));
}

#[test]
fn word_try_new_works() {
    assert_eq!(Word::try_new("hoge").unwrap().raw(), "hoge");
}

#[test]
fn word_try_new_works_blank() {
    assert_eq!(Word::try_new(""), Err(invalid("word should not be blank")));
}

#[test]
fn wolf_count_try_new_works() {
    assert_eq!(WolfCount::try_new(0), Err(invalid("raw_count should not be zero")));
    assert_eq!(*WolfCount::try_new(1).unwrap().raw_count(), 1);
    assert_eq!(*WolfCount::try_new(100).unwrap().raw_count(), 100);
    assert_eq!(*WolfCount::try_new(usize::MAX).unwrap().raw_count(), usize::MAX);
}

#[test]
fn player_count_try_new_works() {
    assert_eq!(PlayerCount::try_new(0), Err(invalid("raw_player_count should not be zero")));
    assert_eq!(*PlayerCount::try_new(1).unwrap().raw_player_count(), 1);
    assert_eq!(*PlayerCount::try_new(100).unwrap().raw_player_count(), 100);
}

#[test]
fn player_count_is_compared_with_wolf_count() {
    let players = PlayerCount::try_new(3).unwrap();
    assert!(players > WolfCount::try_new(2).unwrap());
    assert!(players >= WolfCount::try_new(3).unwrap());
    assert!(players <= WolfCount::try_new(3).unwrap());
    assert!(players == WolfCount::try_new(3).unwrap());
    assert!(players != WolfCount::try_new(4).unwrap());
    assert!(players < WolfCount::try_new(4).unwrap());
    assert!(!(players <= WolfCount::try_new(2).unwrap()));
}

#[test]
fn game_time_try_minutes_works() {
    assert_eq!(GameMinutes::try_new(1).unwrap().raw_minutes(), 1);
    assert_eq!(GameMinutes::try_new(60).unwrap().raw_minutes(), 60);
    assert_eq!(
        GameMinutes::try_new(0),
        Err(invalid("0 is outside of limits. the range are min:1 ~ max:60"))
    );
    assert_eq!(
        GameMinutes::try_new(61),
        Err(invalid("61 is outside of limits. the range are min:1 ~ max:60"))
    );
}

#[test]
fn game_time_try_minutes_reports_large_numbers_in_full() {
    assert_eq!(
        GameMinutes::try_new(u32::MAX),
        Err(invalid("4294967295 is outside of limits. the range are min:1 ~ max:60"))
    );
    assert_eq!(
        GameMinutes::try_new(1000),
        Err(invalid("1000 is outside of limits. the range are min:1 ~ max:60"))
    );
}

#[test]
fn game_time_calc_ended_at_works() {
    assert_eq!(
        GameMinutes::try_new(3).unwrap().calc_ended_at(&datetime(2021, 3, 4, 2, 30, 0)),
        datetime(2021, 3, 4, 2, 33, 0)
    );
    assert_eq!(
        GameMinutes::try_new(5).unwrap().calc_ended_at(&datetime(2021, 3, 4, 2, 0, 0)),
        datetime(2021, 3, 4, 2, 5, 0)
    );
}

#[test]
fn game_time_calc_ended_at_keeps_the_nanoseconds() {
    let ended_at = GameMinutes::try_new(60).unwrap().calc_ended_at(&Timestamp::new(-10, 999));
    assert_eq!(ended_at, Timestamp::new(3590, 999));
}

#[test]
fn game_status_names() {
    assert_eq!(GameStatus::Talking.to_string(), "Talking");
    assert_eq!(GameStatus::Voting.to_string(), "Voting");
    assert_eq!(GameStatus::Ended.to_string(), "Ended");
    assert_eq!(GameStatus::parse("Talking"), Some(GameStatus::Talking));
    assert_eq!(GameStatus::parse("Voting"), Some(GameStatus::Voting));
    assert_eq!(GameStatus::parse("Ended"), Some(GameStatus::Ended));
    assert_eq!(GameStatus::parse("talking"), None);
    assert_eq!(GameStatus::parse(""), None);
}

#[test]
fn player_kind_names() {
    assert_eq!(PlayerKind::Host.as_str(), "host");
    assert_eq!(PlayerKind::Guest.as_str(), "guest");
    assert_eq!(PlayerKind::parse("host"), Some(PlayerKind::Host));
    assert_eq!(PlayerKind::parse("guest"), Some(PlayerKind::Guest));
    assert_eq!(PlayerKind::parse("Host"), None);
}

#[test]
fn player_keeps_its_parts() {
    let player = Player::new(
        Id::new("player1"),
        PlayerKind::Guest,
        PlayerName::try_new("name").unwrap(),
    );
    assert_eq!(player.id().raw_id(), "player1");
    assert_eq!(*player.kind(), PlayerKind::Guest);
    assert_eq!(player.name().raw(), "name");
}

#[test]
fn theme_keeps_its_parts() {
    let theme = Theme::new(
        Id::new("theme1"),
        ThemeKind::try_new("test").unwrap(),
        Word::try_new("foo").unwrap(),
        Word::try_new("bar").unwrap(),
    );
    assert_eq!(theme.id().raw_id(), "theme1");
    assert_eq!(theme.kind().raw_kind(), "test");
    assert_eq!(theme.first().raw(), "foo");
    assert_eq!(theme.second().raw(), "bar");
    assert_eq!(theme.clone(), theme);
}

#[test]
fn theme_word_pair_follows_the_flag() {
    let theme = Theme::new(
        Id::new("theme1"),
        ThemeKind::try_new("test").unwrap(),
        Word::try_new("foo").unwrap(),
        Word::try_new("bar").unwrap(),
    );
    let (wolf, citizen) = theme.word_pair(true);
    assert_eq!((wolf.raw(), citizen.raw()), ("foo", "bar"));
    let (wolf, citizen) = theme.word_pair(false);
    assert_eq!((wolf.raw(), citizen.raw()), ("bar", "foo"));
}
