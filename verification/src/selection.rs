use crate::game::{vote_views, Vote, VoteView};
use crate::id::{raw_ids, PlayerId};
use vstd::prelude::*;

verus! {

/// How many of `votes` are for `target`.
pub open spec fn votes_for(votes: Seq<VoteView>, target: Seq<char>) -> nat
    decreases votes.len(),
{
    if votes.len() == 0 {
        0
    } else {
        votes_for(votes.drop_last(), target) + if votes.last().target == target {
            1nat
        } else {
            0nat
        }
    }
}

/// The players that `votes` are for, each once, in the order in which each
/// got a first vote.
pub open spec fn targets_in_order(votes: Seq<VoteView>) -> Seq<Seq<char>>
    decreases votes.len(),
{
    if votes.len() == 0 {
        Seq::empty()
    } else {
        let before = targets_in_order(votes.drop_last());
        if before.contains(votes.last().target) {
            before
        } else {
            before.push(votes.last().target)
        }
    }
}

/// Whether `target` has a vote and nobody has more votes.
pub open spec fn is_leader(votes: Seq<VoteView>, target: Seq<char>) -> bool {
    &&& votes_for(votes, target) > 0
    &&& forall|other: Seq<char>| votes_for(votes, other) <= votes_for(votes, target)
}

/// The players with the most votes: one player, or all who tie for the
/// first place, in the order in which each got a first vote.
pub open spec fn leaders(votes: Seq<VoteView>) -> Seq<Seq<char>> {
    targets_in_order(votes).filter(|target: Seq<char>| is_leader(votes, target))
}

/// One more vote adds one to the votes for its target and nothing to the
/// votes for anybody else.
proof fn lemma_votes_for_push(votes: Seq<VoteView>, vote: VoteView, target: Seq<char>)
    ensures
        votes_for(votes.push(vote), target) == votes_for(votes, target) + if vote.target
            == target {
            1nat
        } else {
            0nat
        },
{
    assert(votes.push(vote).drop_last() =~= votes);
}

proof fn lemma_targets_push(votes: Seq<VoteView>, vote: VoteView)
    ensures
        targets_in_order(votes.push(vote)) == if targets_in_order(votes).contains(vote.target) {
            targets_in_order(votes)
        } else {
            targets_in_order(votes).push(vote.target)
        },
{
    assert(votes.push(vote).drop_last() =~= votes);
}

proof fn lemma_filter_push<A>(items: Seq<A>, item: A, pred: spec_fn(A) -> bool)
    ensures
        items.push(item).filter(pred) == if pred(item) {
            items.filter(pred).push(item)
        } else {
            items.filter(pred)
        },
{
    reveal(Seq::filter);
    assert(items.push(item).drop_last() =~= items);
}

/// Nobody has more votes than there are votes.
proof fn lemma_votes_for_bound(votes: Seq<VoteView>, target: Seq<char>)
    ensures
        votes_for(votes, target) <= votes.len(),
    decreases votes.len(),
{
    if votes.len() > 0 {
        lemma_votes_for_bound(votes.drop_last(), target);
    }
}

/// Every player that the votes are for stands once in `targets_in_order`,
/// and nobody else stands there.
proof fn lemma_targets(votes: Seq<VoteView>)
    ensures
        targets_in_order(votes).no_duplicates(),
        forall|target: Seq<char>| #[trigger]
            targets_in_order(votes).contains(target) <==> votes_for(votes, target) > 0,
    decreases votes.len(),
{
    if votes.len() > 0 {
        let before = targets_in_order(votes.drop_last());
        let last = votes.last().target;
        lemma_targets(votes.drop_last());
        assert forall|target: Seq<char>| #[trigger]
            targets_in_order(votes).contains(target) <==> votes_for(votes, target) > 0 by {
            if before.contains(target) {
                let i = choose|i: int| 0 <= i < before.len() && before[i] == target;
                assert(targets_in_order(votes)[i] == target);
            }
            if !before.contains(last) {
                assert(before.push(last)[before.len() as int] == last);
            }
            if targets_in_order(votes).contains(target) && target != last {
                let i = choose|i: int|
                    0 <= i < targets_in_order(votes).len() && targets_in_order(votes)[i]
                        == target;
                assert(before[i] == target);
            }
        }
    }
}

/// Keeping some items of a sequence that holds no item twice gives a
/// sequence that holds no item twice.
proof fn lemma_filter_no_duplicates<A>(items: Seq<A>, pred: spec_fn(A) -> bool)
    requires
        items.no_duplicates(),
    ensures
        items.filter(pred).no_duplicates(),
        forall|item: A| #[trigger]
            items.filter(pred).contains(item) <==> items.contains(item) && pred(item),
    decreases items.len(),
{
    reveal(Seq::filter);
    if items.len() > 0 {
        let rest = items.drop_last();
        let last = items.last();
        lemma_filter_no_duplicates(rest, pred);
        let kept = items.filter(pred);
        assert forall|item: A| #[trigger] kept.contains(item) <==> items.contains(item) && pred(
            item,
        ) by {
            if rest.contains(item) {
                let i = choose|i: int| 0 <= i < rest.len() && rest[i] == item;
                assert(items[i] == item);
            }
            if rest.filter(pred).contains(item) {
                let i = choose|i: int|
                    0 <= i < rest.filter(pred).len() && rest.filter(pred)[i] == item;
                assert(kept[i] == item);
            }
            if pred(last) {
                assert(kept[kept.len() - 1] == last);
            }
            if items.contains(item) && item != last {
                let i = choose|i: int| 0 <= i < items.len() && items[i] == item;
                assert(rest[i] == item);
            }
            if kept.contains(item) && !(pred(last) && item == last) {
                let i = choose|i: int| 0 <= i < kept.len() && kept[i] == item;
                assert(rest.filter(pred)[i] == item);
            }
        }
        if pred(last) {
            if rest.contains(last) {
                let i = choose|i: int| 0 <= i < rest.len() && rest[i] == last;
                assert(items[i] == items[items.len() - 1]);
            }
            assert(!rest.filter(pred).contains(last));
        }
    }
}

/// The players whom the votes select are those who have a vote and no
/// fewer votes than anybody, each once.
pub proof fn lemma_leaders_are_the_plurality(votes: Seq<VoteView>)
    ensures
        leaders(votes).no_duplicates(),
        forall|target: Seq<char>| #[trigger]
            leaders(votes).contains(target) <==> is_leader(votes, target),
{
    lemma_targets(votes);
    lemma_filter_no_duplicates(
        targets_in_order(votes),
        |target: Seq<char>| is_leader(votes, target),
    );
}

/// Where nobody voted, nobody is selected.
pub proof fn lemma_no_votes_no_leader()
    ensures
        leaders(Seq::<VoteView>::empty()) == Seq::<Seq<char>>::empty(),
{
    reveal(Seq::filter);
}

/// A single vote selects the player that it is for.
pub proof fn lemma_single_vote(vote: VoteView)
    ensures
        leaders(seq![vote]) == seq![vote.target],
{
    let votes = seq![vote];
    assert(votes.drop_last() =~= Seq::<VoteView>::empty());
    assert(votes =~= Seq::<VoteView>::empty().push(vote));
    lemma_targets_push(Seq::empty(), vote);
    assert(targets_in_order(votes) =~= seq![vote.target]);
    assert forall|other: Seq<char>| #[trigger]
        votes_for(votes, other) <= votes_for(votes, vote.target) by {
        lemma_votes_for_push(Seq::empty(), vote, other);
        lemma_votes_for_push(Seq::empty(), vote, vote.target);
    }
    lemma_votes_for_push(Seq::empty(), vote, vote.target);
    let leads = |target: Seq<char>| is_leader(votes, target);
    assert(leads(vote.target));
    lemma_no_votes_no_leader();
    reveal(Seq::filter);
    lemma_filter_push(Seq::<Seq<char>>::empty(), vote.target, leads);
    assert(seq![vote.target] =~= Seq::<Seq<char>>::empty().push(vote.target));
    assert(Seq::<Seq<char>>::empty().filter(leads) =~= Seq::<Seq<char>>::empty());
}

/// Picks the players whom a vote sends out.
pub struct SelectionService;

impl SelectionService {
    pub fn new() -> (service: Self) {
        SelectionService
    }

    /// The players with the most votes: none where nobody voted, one player
    /// where one leads, and all who tie where several lead, in the order in
    /// which each got a first vote.
    pub fn selection(&self, votes: Vec<Vote>) -> (selected: Vec<PlayerId>)
        ensures
            raw_ids(selected@) == leaders(vote_views(votes@)),
    {
        let ghost all = vote_views(votes@);
        let mut targets: Vec<PlayerId> = Vec::new();
        let mut counts: Vec<usize> = Vec::new();
        let mut i: usize = 0;
        assert(all.take(0) =~= Seq::<VoteView>::empty());
        assert(raw_ids(targets@) =~= targets_in_order(all.take(0)));
        while i < votes.len()
            invariant
                i <= votes@.len(),
                all == vote_views(votes@),
                counts@.len() == targets@.len(),
                raw_ids(targets@) == targets_in_order(all.take(i as int)),
                raw_ids(targets@).no_duplicates(),
                forall|k: int|
                    0 <= k < targets@.len() ==> 0 < #[trigger] counts@[k] && counts@[k]
                        == votes_for(all.take(i as int), raw_ids(targets@)[k]),
                forall|other: Seq<char>|
                    !raw_ids(targets@).contains(other) ==> votes_for(all.take(i as int), other)
                        == 0,
            decreases votes@.len() - i,
        {
            let ghost seen = all.take(i as int);
            let ghost names = raw_ids(targets@);
            let target = votes[i].target();
            assert(target@ == all[i as int].target);
            let mut at: usize = 0;
            let mut found = false;
            while at < targets.len() && !found
                invariant
                    at <= targets@.len(),
                    names == raw_ids(targets@),
                    forall|k: int| 0 <= k < at ==> names[k] != target@,
                    found ==> at < names.len() && names[at as int] == target@,
                decreases targets@.len() - at + (if found { 0int } else { 1int }),
            {
                if targets[at] == *target {
                    found = true;
                } else {
                    at += 1;
                }
            }
            proof {
                assert(all.take(i + 1) =~= seen.push(all[i as int]));
                lemma_targets_push(seen, all[i as int]);
                assert forall|other: Seq<char>| #[trigger]
                    votes_for(all.take(i + 1), other) == votes_for(seen, other) + if target@
                        == other {
                        1nat
                    } else {
                        0nat
                    } by {
                    lemma_votes_for_push(seen, all[i as int], other);
                }
                lemma_votes_for_bound(seen, target@);
            }
            if found {
                let count = counts[at];
                counts.set(at, count + 1);
                proof {
                    assert(names.contains(target@));
                }
            } else {
                targets.push(target.clone());
                counts.push(1);
                proof {
                    assert(!names.contains(target@));
                    assert(raw_ids(targets@) =~= names.push(target@));
                    assert forall|other: Seq<char>| !raw_ids(targets@).contains(other) implies #[trigger]
                        votes_for(all.take(i + 1), other) == 0 by {
                        assert(raw_ids(targets@)[names.len() as int] == target@);
                        if names.contains(other) {
                            let k = choose|k: int| 0 <= k < names.len() && names[k] == other;
                            assert(raw_ids(targets@)[k] == other);
                        }
                    }
                }
            }
            i += 1;
        }
        assert(all.take(i as int) =~= all);
        let ghost names = raw_ids(targets@);
        let mut most: usize = 0;
        let mut k: usize = 0;
        while k < counts.len()
            invariant
                k <= counts@.len(),
                forall|j: int| 0 <= j < k ==> counts@[j] <= most,
                k == 0 ==> most == 0,
                k > 0 ==> exists|j: int| 0 <= j < k && counts@[j] == most,
            decreases counts@.len() - k,
        {
            if counts[k] > most {
                most = counts[k];
            }
            k += 1;
        }
        let ghost leads = |target: Seq<char>| is_leader(all, target);
        proof {
            assert forall|j: int| 0 <= j < names.len() implies (leads(#[trigger] names[j])
                <==> counts@[j] == most) by {
                let winner = choose|w: int| 0 <= w < counts@.len() && counts@[w] == most;
                assert(counts@[winner] == votes_for(all, names[winner]));
                assert(counts@[j] == votes_for(all, names[j]));
                if counts@[j] == most {
                    assert forall|other: Seq<char>| #[trigger]
                        votes_for(all, other) <= votes_for(all, names[j]) by {
                        if names.contains(other) {
                            let o = choose|o: int| 0 <= o < names.len() && names[o] == other;
                            assert(counts@[o] == votes_for(all, names[o]));
                        }
                    }
                }
            }
        }
        let mut selected: Vec<PlayerId> = Vec::new();
        let mut k: usize = 0;
        proof {
            reveal(Seq::filter);
            assert(names.take(0) =~= Seq::<Seq<char>>::empty());
            assert(raw_ids(selected@) =~= names.take(0).filter(leads));
        }
        while k < targets.len()
            invariant
                k <= targets@.len(),
                counts@.len() == targets@.len(),
                names == raw_ids(targets@),
                forall|j: int|
                    0 <= j < names.len() ==> (leads(#[trigger] names[j]) <==> counts@[j] == most),
                raw_ids(selected@) == names.take(k as int).filter(leads),
            decreases targets@.len() - k,
        {
            let ghost chosen = raw_ids(selected@);
            proof {
                assert(names.take(k + 1) =~= names.take(k as int).push(names[k as int]));
                lemma_filter_push(names.take(k as int), names[k as int], leads);
            }
            if counts[k] == most {
                selected.push(targets[k].clone());
                assert(raw_ids(selected@) =~= chosen.push(names[k as int]));
            }
            k += 1;
        }
        assert(names.take(k as int) =~= names);
        selected
    }
}

} // verus!
