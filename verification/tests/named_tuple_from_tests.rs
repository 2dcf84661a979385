use mwwolf::player::PlayerName;
use mwwolf::theme::{ThemeKind, Word};

#[test]
fn it_works() {
    let target = Word::try_new("this is test").unwrap();
    let actual: String = target.into();
    assert_eq!(actual, "this is test".to_string());
}

#[test]
fn theme_kind_into_string() {
    let actual: String = ThemeKind::try_new("kind1").unwrap().into();
    assert_eq!(actual, "kind1".to_string());
}

#[test]
fn player_name_into_string() {
    let actual: String = PlayerName::try_new("name").unwrap().into();
    assert_eq!(actual, "name".to_string());
}
