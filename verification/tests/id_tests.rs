use mwwolf::id::{clone_ids, sort_ids, Id, PlayerId, PlayerTag, RoomTag};

#[test]
fn works_eq_same_raw_value() {
    assert!(Id::<PlayerTag>::new("hoge") == Id::<PlayerTag>::new("hoge"));
    assert!(Id::<PlayerTag>::new("hfoo") == Id::<PlayerTag>::new("hfoo"));
}

#[test]
fn works_eq_other_raw_value() {
    assert!(Id::<PlayerTag>::new("hfoo") != Id::<PlayerTag>::new("hoge"));
}

#[test]
fn works_clone() {
    let id = Id::<RoomTag>::new("hoge");
    assert_eq!(id.clone(), id);
    assert_eq!(id.clone().raw_id(), "hoge");
    assert_eq!(Id::<RoomTag>::new("foo").clone().raw_id(), "foo");
}

#[test]
fn works_format() {
    assert_eq!(Id::<PlayerTag>::new("hoge").to_string(), "hoge");
    assert_eq!(Id::<PlayerTag>::new("foo").to_string(), "foo");
}

#[test]
fn works_raw_id() {
    assert_eq!(Id::<PlayerTag>::new("hoge").raw_id(), "hoge");
    assert_eq!(Id::<PlayerTag>::new("foo").raw_id(), "foo");
}

#[test]
fn id_into_string() {
    let raw: String = Id::<PlayerTag>::new("player1").into();
    assert_eq!(raw, "player1");
}

#[test]
fn le_follows_the_bytes_of_the_raw_values() {
    let cases = [
        ("", "", true),
        ("", "a", true),
        ("a", "", false),
        ("a", "a", true),
        ("a", "b", true),
        ("b", "a", false),
        ("player1", "player10", true),
        ("player10", "player2", true),
        ("player2", "player10", false),
        ("new_player1", "player1", true),
        ("Z", "a", true),
        ("z", "é", true),
        ("é", "z", false),
    ];
    for (left, right, expected) in cases {
        let le = Id::<PlayerTag>::new(left).le(&Id::<PlayerTag>::new(right));
        assert_eq!(le, expected, "{:?} <= {:?}", left, right);
        assert_eq!(le, left <= right);
        assert_eq!(
            Id::<PlayerTag>::new(left).partial_cmp(&Id::<PlayerTag>::new(right)),
            left.partial_cmp(right)
        );
        assert_eq!(
            Id::<PlayerTag>::new(left).cmp(&Id::<PlayerTag>::new(right)),
            left.cmp(right)
        );
    }
}

#[test]
fn sort_ids_orders_as_the_standard_sort_of_strings() {
    let raws = vec!["player3", "player1", "é", "player10", "", "Player2", "player2", "player1"];
    let ids: Vec<PlayerId> = raws.iter().map(|raw| Id::new(raw)).collect();
    let sorted: Vec<String> = sort_ids(&ids).iter().map(|id| id.to_string()).collect();
    let mut expected: Vec<String> = raws.iter().map(|raw| raw.to_string()).collect();
    expected.sort();
    assert_eq!(sorted, expected);
    let mut by_std = clone_ids(&ids);
    by_std.sort();
    assert_eq!(sort_ids(&ids), by_std);
    assert_eq!(
        sorted,
        vec!["", "Player2", "player1", "player1", "player10", "player2", "player3", "é"]
    );
}

#[test]
fn sort_ids_of_nothing_is_nothing() {
    let ids: Vec<PlayerId> = vec![];
    assert!(sort_ids(&ids).is_empty());
}

#[test]
fn clone_ids_keeps_order() {
    let ids: Vec<PlayerId> = vec![Id::new("b"), Id::new("a"), Id::new("c")];
    assert_eq!(clone_ids(&ids), ids);
}

#[test]
fn ids_hash_as_their_raw_values_say() {
    let mut seen = std::collections::HashSet::new();
    assert!(seen.insert(Id::<PlayerTag>::new("player1")));
    assert!(!seen.insert(Id::<PlayerTag>::new("player1")));
    assert!(seen.insert(Id::<PlayerTag>::new("player2")));
    assert_eq!(seen.len(), 2);
}
