use mwwolf::game::Vote;
use mwwolf::id::{Id, PlayerId};
use mwwolf::selection::SelectionService;

fn vote(target: &str, voter: &str) -> Vote {
    Vote::new(Id::new(target), Id::new(voter))
}

fn sorted_selection(votes: Vec<Vote>) -> Vec<PlayerId> {
    let mut results = SelectionService::new().selection(votes);
    results.sort_by_key(|a| a.to_string());
    results
}

#[test]
fn selection_works_single_vote_single_result() {
    assert_eq!(
        sorted_selection(vec![vote("player1", "player2")]),
        vec![Id::new("player1")]
    );
}

#[test]
fn selection_works_multi_vote_single_result() {
    assert_eq!(
        sorted_selection(vec![
            vote("player1", "player2"),
            vote("player1", "player3"),
            vote("player2", "player4"),
        ]),
        vec![Id::new("player1")]
    );
}

#[test]
fn selection_works_multi_vote_multi_result() {
    assert_eq!(
        sorted_selection(vec![
            vote("player1", "player2"),
            vote("player1", "player3"),
            vote("player2", "player4"),
            vote("player2", "player5"),
            vote("player3", "player6"),
        ]),
        vec![Id::new("player1"), Id::new("player2")]
    );
}

#[test]
fn selection_of_no_votes_is_empty() {
    assert!(SelectionService::new().selection(vec![]).is_empty());
}

#[test]
fn selection_returns_all_who_tie() {
    let votes = vec![
        vote("C", "v1"),
        vote("B", "v2"),
        vote("A", "v3"),
        vote("B", "v4"),
        vote("A", "v5"),
        vote("A", "v6"),
        vote("B", "v7"),
    ];
    let selected: Vec<PlayerId> = SelectionService::new().selection(votes);
    assert_eq!(selected, vec![Id::new("B"), Id::new("A")]);
}

#[test]
fn selection_returns_everybody_when_all_have_one_vote() {
    let votes = vec![vote("b", "v1"), vote("a", "v2"), vote("c", "v3")];
    let selected: Vec<PlayerId> = SelectionService::new().selection(votes);
    assert_eq!(selected, vec![Id::new("b"), Id::new("a"), Id::new("c")]);
}

#[test]
fn selection_finds_a_late_leader() {
    let votes = vec![
        vote("a", "v1"),
        vote("b", "v2"),
        vote("c", "v3"),
        vote("c", "v4"),
    ];
    let selected: Vec<PlayerId> = SelectionService::new().selection(votes);
    assert_eq!(selected, vec![Id::new("c")]);
}
