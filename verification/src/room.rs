use crate::error::{DomainError, DomainErrorKind, DomainResult};
use crate::game::GameMinutes;
use crate::id::{clone_ids, raw_ids, raw_order, sort_ids, PlayerId, RoomId};
use crate::text::{decimal_text, push_decimal};
use crate::theme::ThemeKind;
use std::cmp::Ordering;
use vstd::prelude::*;

verus! {

/// How many players a room takes: a number above zero. Its view is that
/// number.
#[derive(Debug, PartialEq)]
pub struct PlayerCount {
    raw_player_count: usize,
}

impl View for PlayerCount {
    type V = nat;

    closed spec fn view(&self) -> nat {
        self.raw_player_count as nat
    }
}

impl PlayerCount {
    #[verifier::type_invariant]
    spec fn above_zero(self) -> bool {
        self.raw_player_count > 0
    }

    /// Accepts every number but zero.
    pub fn try_new(raw_player_count: usize) -> (result: DomainResult<Self>)
        ensures
            match result {
                Ok(made) => raw_player_count != 0 && made@ == raw_player_count,
                Err(error) => raw_player_count == 0 && error.is(
                    DomainErrorKind::InvalidInput,
                    "raw_player_count should not be zero"@,
                ),
            },
    {
        if raw_player_count == 0 {
            Err(
                DomainError::new(
                    DomainErrorKind::InvalidInput,
                    "raw_player_count should not be zero",
                ),
            )
        } else {
            Ok(PlayerCount { raw_player_count })
        }
    }

    /// The number, which is above zero.
    pub fn raw_player_count(&self) -> (raw: &usize)
        ensures
            *raw == self@,
            *raw > 0,
    {
        proof {
            use_type_invariant(self);
        }
        &self.raw_player_count
    }
}

impl PartialEq<WolfCount> for PlayerCount {
    /// A player count equals a wolf count of the same number.
    fn eq(&self, other: &WolfCount) -> (same: bool)
    {
        self.raw_player_count == other.raw_count
    }
}

impl vstd::std_specs::cmp::PartialEqSpecImpl<WolfCount> for PlayerCount {
    open spec fn obeys_eq_spec() -> bool {
        true
    }

    open spec fn eq_spec(&self, other: &WolfCount) -> bool {
        self@ == other@
    }
}

impl PartialOrd<WolfCount> for PlayerCount {
    /// A player count compares with a wolf count as their numbers do.
    fn partial_cmp(&self, other: &WolfCount) -> (order: Option<Ordering>)
    {
        if self.raw_player_count < other.raw_count {
            Some(Ordering::Less)
        } else if self.raw_player_count == other.raw_count {
            Some(Ordering::Equal)
        } else {
            Some(Ordering::Greater)
        }
    }
}

impl vstd::std_specs::cmp::PartialOrdSpecImpl<WolfCount> for PlayerCount {
    open spec fn obeys_partial_cmp_spec() -> bool {
        true
    }

    open spec fn partial_cmp_spec(&self, other: &WolfCount) -> Option<Ordering> {
        if self@ < other@ {
            Some(Ordering::Less)
        } else if self@ == other@ {
            Some(Ordering::Equal)
        } else {
            Some(Ordering::Greater)
        }
    }
}

impl Clone for PlayerCount {
    fn clone(&self) -> (copy: Self)
        ensures
            copy@ == self@,
    {
        proof {
            use_type_invariant(self);
        }
        PlayerCount { raw_player_count: self.raw_player_count }
    }
}

/// How many wolves a game has: a number above zero. Its view is that number.
#[derive(Debug, PartialEq)]
pub struct WolfCount {
    raw_count: usize,
}

impl View for WolfCount {
    type V = nat;

    closed spec fn view(&self) -> nat {
        self.raw_count as nat
    }
}

impl WolfCount {
    #[verifier::type_invariant]
    spec fn above_zero(self) -> bool {
        self.raw_count > 0
    }

    /// Accepts every number but zero.
    pub fn try_new(raw_count: usize) -> (result: DomainResult<Self>)
        ensures
            match result {
                Ok(made) => raw_count != 0 && made@ == raw_count,
                Err(error) => raw_count == 0 && error.is(
                    DomainErrorKind::InvalidInput,
                    "raw_count should not be zero"@,
                ),
            },
    {
        if raw_count == 0 {
            Err(DomainError::new(DomainErrorKind::InvalidInput, "raw_count should not be zero"))
        } else {
            Ok(WolfCount { raw_count })
        }
    }

    /// The number, which is above zero.
    pub fn raw_count(&self) -> (raw: &usize)
        ensures
            *raw == self@,
            *raw > 0,
    {
        proof {
            use_type_invariant(self);
        }
        &self.raw_count
    }
}

impl Clone for WolfCount {
    fn clone(&self) -> (copy: Self)
        ensures
            copy@ == self@,
    {
        proof {
            use_type_invariant(self);
        }
        WolfCount { raw_count: self.raw_count }
    }
}

/// What a room reports where it holds, or would hold, more players than it
/// takes.
pub open spec fn too_many_players_message(current: nat, max: nat) -> Seq<char> {
    "player count is begger than max player count. current player count is "@ + decimal_text(
        current,
    ) + ", max player count is "@ + decimal_text(max)
}

/// The message for the first rule of a room that these values break, if they
/// break one: a room takes more players than it has wolves, holds no more
/// players than it takes, and holds no player twice.
pub open spec fn violation(player_count: nat, wolf_count: nat, all_players: Seq<Seq<char>>)
    -> Option<Seq<char>> {
    if player_count <= wolf_count {
        Some("player_count must be bigger than wolf count"@)
    } else if all_players.len() > player_count {
        Some(too_many_players_message(all_players.len(), player_count))
    } else if !all_players.no_duplicates() {
        Some("all_players must not be duplicate"@)
    } else {
        None
    }
}

/// Whether `error` is what a room reports for these values: an invalid input
/// with the message of the first rule that they break.
pub open spec fn reports_violation(
    error: DomainError,
    player_count: nat,
    wolf_count: nat,
    all_players: Seq<Seq<char>>,
) -> bool {
    &&& error.kind == DomainErrorKind::InvalidInput
    &&& error.source is None
    &&& violation(player_count, wolf_count, all_players) == Some(error.message@)
}

/// What a room reports when its host is asked to leave.
pub open spec fn host_leaves_message(player_id: Seq<char>) -> Seq<char> {
    "player_id:"@ + player_id + " is host"@
}

/// What a room reports when a player is asked to leave who is not in it.
pub open spec fn not_exists_message(player_id: Seq<char>) -> Seq<char> {
    "not exists player_id:"@ + player_id
}

/// What a room is, in contracts.
pub struct RoomView {
    pub id: Seq<char>,
    pub player_count: nat,
    pub wolf_count: nat,
    pub host_player_id: Seq<char>,
    pub all_players: Seq<Seq<char>>,
    pub game_time: nat,
    pub theme_kind: Seq<char>,
}

impl RoomView {
    /// Whether the room keeps every rule of a room.
    pub open spec fn is_valid(self) -> bool {
        violation(self.player_count, self.wolf_count, self.all_players) is None
    }

    /// This room with other players.
    pub open spec fn with_players(self, all_players: Seq<Seq<char>>) -> RoomView {
        RoomView { all_players, ..self }
    }

    /// The players of this room after `player_id` has joined: the players
    /// and the new one, in the order of raw identifiers.
    pub open spec fn joined(self, player_id: Seq<char>) -> Seq<Seq<char>> {
        self.all_players.push(player_id).sort_by(raw_order())
    }

    /// The players of this room after `player_id` has left: the others, in
    /// the order that they had.
    pub open spec fn left(self, player_id: Seq<char>) -> Seq<Seq<char>> {
        self.all_players.remove(self.all_players.index_of(player_id))
    }
}

/// The lobby of a game: who plays, and how the game is set up. A room always
/// keeps the rules of a room.
#[derive(Debug, PartialEq)]
pub struct Room {
    id: RoomId,
    player_count: PlayerCount,
    wolf_count: WolfCount,
    host_player_id: PlayerId,
    all_players: Vec<PlayerId>,
    game_time: GameMinutes,
    theme_kind: ThemeKind,
}

impl View for Room {
    type V = RoomView;

    closed spec fn view(&self) -> RoomView {
        RoomView {
            id: self.id@,
            player_count: self.player_count@,
            wolf_count: self.wolf_count@,
            host_player_id: self.host_player_id@,
            all_players: raw_ids(self.all_players@),
            game_time: self.game_time@,
            theme_kind: self.theme_kind@,
        }
    }
}

/// Sequences with the same items, each as often, are both free of
/// duplicates or both not, and are of the same length.
pub proof fn lemma_same_items<A>(a: Seq<A>, b: Seq<A>)
    requires
        a.to_multiset() == b.to_multiset(),
    ensures
        a.len() == b.len(),
        a.no_duplicates() == b.no_duplicates(),
{
    a.to_multiset_ensures();
    b.to_multiset_ensures();
    if a.no_duplicates() {
        a.lemma_multiset_has_no_duplicates();
        b.lemma_multiset_has_no_duplicates_conv();
    }
    if b.no_duplicates() {
        b.lemma_multiset_has_no_duplicates();
        a.lemma_multiset_has_no_duplicates_conv();
    }
}

impl Room {
    #[verifier::type_invariant]
    spec fn keeps_rules(self) -> bool {
        self@.is_valid()
    }

    /// Whether one of `players` stands twice in it.
    pub fn has_duplicate_players(players: &Vec<PlayerId>) -> (found: bool)
        ensures
            found == !raw_ids(players@).no_duplicates(),
    {
        let ghost raws = raw_ids(players@);
        let mut i: usize = 0;
        while i < players.len()
            invariant
                i <= players@.len(),
                raws == raw_ids(players@),
                forall|a: int, b: int| 0 <= a < b < i ==> raws[a] != raws[b],
            decreases players@.len() - i,
        {
            let mut j: usize = 0;
            while j < i
                invariant
                    j <= i,
                    i < players@.len(),
                    raws == raw_ids(players@),
                    forall|a: int| 0 <= a < j ==> raws[a] != raws[i as int],
                decreases i - j,
            {
                if players[j] == players[i] {
                    assert(raws[j as int] == raws[i as int]);
                    return true;
                }
                j += 1;
            }
            i += 1;
        }
        assert forall|a: int, b: int| 0 <= a < raws.len() && 0 <= b < raws.len() && a != b implies raws[a] != raws[b] by {
            if a < b {
                assert(raws[a] != raws[b]);
            } else {
                assert(raws[b] != raws[a]);
            }
        }
        false
    }

    /// Holds the values of a room against the rules of a room, and reports
    /// the first rule that they break.
    pub fn validate(player_count: &PlayerCount, wolf_count: &WolfCount, all_players: &Vec<PlayerId>)
        -> (result: DomainResult<()>)
        ensures
            match result {
                Ok(_) => violation(player_count@, wolf_count@, raw_ids(all_players@)) is None,
                Err(error) => reports_violation(
                    error,
                    player_count@,
                    wolf_count@,
                    raw_ids(all_players@),
                ),
            },
    {
        if *player_count <= *wolf_count {
            Err(
                DomainError::new(
                    DomainErrorKind::InvalidInput,
                    "player_count must be bigger than wolf count",
                ),
            )
        } else if all_players.len() > *player_count.raw_player_count() {
            let mut message =
                "player count is begger than max player count. current player count is ".to_owned();
            push_decimal(&mut message, all_players.len());
            message.append(", max player count is ");
            push_decimal(&mut message, *player_count.raw_player_count());
            Err(DomainError::new(DomainErrorKind::InvalidInput, message.as_str()))
        } else if Self::has_duplicate_players(all_players) {
            Err(DomainError::new(DomainErrorKind::InvalidInput, "all_players must not be duplicate"))
        } else {
            Ok(())
        }
    }

    /// Makes a room of values that keep the rules of a room, and reports the
    /// first rule that the others break.
    pub fn try_new(
        id: RoomId,
        player_count: PlayerCount,
        wolf_count: WolfCount,
        host_player_id: PlayerId,
        all_players: Vec<PlayerId>,
        game_time: GameMinutes,
        theme_kind: ThemeKind,
    ) -> (result: DomainResult<Self>)
        ensures
            match result {
                Ok(room) => room@.is_valid() && room@ == (RoomView {
                    id: id@,
                    player_count: player_count@,
                    wolf_count: wolf_count@,
                    host_player_id: host_player_id@,
                    all_players: raw_ids(all_players@),
                    game_time: game_time@,
                    theme_kind: theme_kind@,
                }),
                Err(error) => reports_violation(
                    error,
                    player_count@,
                    wolf_count@,
                    raw_ids(all_players@),
                ),
            },
    {
        match Self::validate(&player_count, &wolf_count, &all_players) {
            Ok(_) => Ok(
                Room {
                    id,
                    player_count,
                    wolf_count,
                    host_player_id,
                    all_players,
                    game_time,
                    theme_kind,
                },
            ),
            Err(error) => Err(error),
        }
    }

    pub fn id(&self) -> (id: &RoomId)
        ensures
            id@ == self@.id,
    {
        &self.id
    }

    pub fn player_count(&self) -> (player_count: &PlayerCount)
        ensures
            player_count@ == self@.player_count,
    {
        &self.player_count
    }

    pub fn wolf_count(&self) -> (wolf_count: &WolfCount)
        ensures
            wolf_count@ == self@.wolf_count,
    {
        &self.wolf_count
    }

    pub fn host_player_id(&self) -> (host_player_id: &PlayerId)
        ensures
            host_player_id@ == self@.host_player_id,
    {
        &self.host_player_id
    }

    /// The players, of whom the room holds no more than it takes, and none
    /// twice.
    pub fn all_players(&self) -> (all_players: &Vec<PlayerId>)
        ensures
            raw_ids(all_players@) == self@.all_players,
            self@.is_valid(),
    {
        proof {
            use_type_invariant(self);
        }
        &self.all_players
    }

    pub fn game_time(&self) -> (game_time: &GameMinutes)
        ensures
            game_time@ == self@.game_time,
    {
        &self.game_time
    }

    pub fn theme_kind(&self) -> (theme_kind: &ThemeKind)
        ensures
            theme_kind@ == self@.theme_kind,
    {
        &self.theme_kind
    }

    /// Lets `player_id` join. Where the room has a free place and does not
    /// hold the player yet, the player is added and the players are put in
    /// the order of raw identifiers. Otherwise the room stays as it was, and
    /// the error names the rule that the player would break.
    pub fn join_player(&mut self, player_id: PlayerId) -> (result: DomainResult<()>)
        ensures
            final(self)@.is_valid(),
            match result {
                Ok(_) => {
                    &&& old(self)@.all_players.len() < old(self)@.player_count
                    &&& !old(self)@.all_players.contains(player_id@)
                    &&& final(self)@ == old(self)@.with_players(old(self)@.joined(player_id@))
                },
                Err(error) => {
                    &&& final(self)@ == old(self)@
                    &&& reports_violation(
                        error,
                        old(self)@.player_count,
                        old(self)@.wolf_count,
                        old(self)@.all_players.push(player_id@),
                    )
                },
            },
    {
        proof {
            use_type_invariant(&*self);
        }
        let ghost added = self@.all_players.push(player_id@);
        let mut new_players = clone_ids(&self.all_players);
        new_players.push(player_id);
        assert(raw_ids(new_players@) =~= added);
        let sorted = sort_ids(&new_players);
        proof {
            crate::id::lemma_raw_order_total();
            added.lemma_sort_by_ensures(raw_order());
            lemma_same_items(added, raw_ids(sorted@));
            if !self@.all_players.contains(player_id@) {
                assert forall|a: int, b: int|
                    0 <= a < added.len() && 0 <= b < added.len() && a != b implies added[a]
                    != added[b] by {
                    if a < self@.all_players.len() && b < self@.all_players.len() {
                    } else if a < self@.all_players.len() {
                        assert(self@.all_players.contains(added[a]));
                    } else {
                        assert(self@.all_players.contains(added[b]));
                    }
                }
            } else {
                let at = choose|at: int|
                    0 <= at < self@.all_players.len() && self@.all_players[at] == player_id@;
                assert(added[at] == added[added.len() - 1]);
            }
        }
        match Self::validate(&self.player_count, &self.wolf_count, &sorted) {
            Ok(_) => {
                self.all_players = sorted;
                Ok(())
            },
            Err(error) => Err(error),
        }
    }

    /// Lets `player_id` leave. A player of the room who is not its host is
    /// taken out, and the others keep their order. Otherwise the room stays
    /// as it was.
    pub fn leave_player(&mut self, player_id: &PlayerId) -> (result: DomainResult<()>)
        ensures
            final(self)@.is_valid(),
            match result {
                Ok(_) => {
                    &&& player_id@ != old(self)@.host_player_id
                    &&& old(self)@.all_players.contains(player_id@)
                    &&& final(self)@ == old(self)@.with_players(old(self)@.left(player_id@))
                },
                Err(error) => {
                    &&& final(self)@ == old(self)@
                    &&& if player_id@ == old(self)@.host_player_id {
                        error.is(DomainErrorKind::InvalidInput, host_leaves_message(player_id@))
                    } else {
                        !old(self)@.all_players.contains(player_id@) && error.is(
                            DomainErrorKind::InvalidInput,
                            not_exists_message(player_id@),
                        )
                    }
                },
            },
    {
        proof {
            use_type_invariant(&*self);
        }
        if self.host_player_id == *player_id {
            let mut message = "player_id:".to_owned();
            message.append(player_id.raw_id().as_str());
            message.append(" is host");
            return Err(DomainError::new(DomainErrorKind::InvalidInput, message.as_str()));
        }
        let ghost players = self@.all_players;
        let mut index: usize = 0;
        let mut found = false;
        while index < self.all_players.len() && !found
            invariant
                index <= self.all_players@.len(),
                players == raw_ids(self.all_players@),
                forall|k: int| 0 <= k < index ==> players[k] != player_id@,
                found ==> index < players.len() && players[index as int] == player_id@,
            decreases self.all_players@.len() - index + (if found { 0int } else { 1int }),
        {
            if self.all_players[index] == *player_id {
                found = true;
            } else {
                index += 1;
            }
        }
        if found {
            let mut new_players = clone_ids(&self.all_players);
            new_players.remove(index);
            proof {
                assert(players.contains(player_id@));
                let chosen = players.index_of(player_id@);
                assert(players[chosen] == player_id@);
                assert(chosen == index);
                assert(raw_ids(new_players@) =~= players.remove(index as int));
                let rest = players.remove(index as int);
                assert forall|a: int, b: int|
                    0 <= a < rest.len() && 0 <= b < rest.len() && a != b implies rest[a]
                    != rest[b] by {
                    let a0 = if a < index { a } else { a + 1 };
                    let b0 = if b < index { b } else { b + 1 };
                    assert(rest[a] == players[a0]);
                    assert(rest[b] == players[b0]);
                }
            }
            self.all_players = new_players;
            Ok(())
        } else {
            let mut message = "not exists player_id:".to_owned();
            message.append(player_id.raw_id().as_str());
            Err(DomainError::new(DomainErrorKind::InvalidInput, message.as_str()))
        }
    }
}

impl Clone for Room {
    fn clone(&self) -> (copy: Self)
        ensures
            copy@ == self@,
    {
        proof {
            use_type_invariant(self);
        }
        Room {
            id: self.id.clone(),
            player_count: self.player_count.clone(),
            wolf_count: self.wolf_count.clone(),
            host_player_id: self.host_player_id.clone(),
            all_players: clone_ids(&self.all_players),
            game_time: self.game_time.clone(),
            theme_kind: self.theme_kind.clone(),
        }
    }
}

/// The rules of a room: values keep them exactly when the room takes more
/// players than it has wolves, holds no more players than it takes, and
/// holds no player twice. The first rule that is broken settles the message.
pub proof fn lemma_rules_of_a_room(player_count: nat, wolf_count: nat, all_players: Seq<Seq<char>>)
    ensures
        violation(player_count, wolf_count, all_players) is None <==> {
            &&& wolf_count < player_count
            &&& all_players.len() <= player_count
            &&& all_players.no_duplicates()
        },
        player_count <= wolf_count ==> violation(player_count, wolf_count, all_players) == Some(
            "player_count must be bigger than wolf count"@,
        ),
        wolf_count < player_count && all_players.len() > player_count ==> violation(
            player_count,
            wolf_count,
            all_players,
        ) == Some(too_many_players_message(all_players.len(), player_count)),
        wolf_count < player_count && all_players.len() <= player_count
            && !all_players.no_duplicates() ==> violation(player_count, wolf_count, all_players)
            == Some("all_players must not be duplicate"@),
{
}

/// A player who joins a room and then leaves it leaves the players of the
/// room as they were, put in the order of raw identifiers.
pub proof fn lemma_join_then_leave(room: RoomView, player_id: Seq<char>)
    requires
        room.is_valid(),
        room.all_players.len() < room.player_count,
        !room.all_players.contains(player_id),
        player_id != room.host_player_id,
    ensures
        room.with_players(room.joined(player_id)).left(player_id) == room.all_players.sort_by(
            raw_order(),
        ),
{
    let order = raw_order();
    crate::id::lemma_raw_order_total();
    let added = room.all_players.push(player_id);
    let joined = room.joined(player_id);
    added.lemma_sort_by_ensures(order);
    room.all_players.lemma_sort_by_ensures(order);
    vstd::seq_lib::to_multiset_build(room.all_players, player_id);
    joined.to_multiset_ensures();
    assert(joined.to_multiset().count(player_id) > 0);
    assert(joined.contains(player_id));
    let at = joined.index_of(player_id);
    assert(0 <= at < joined.len() && joined[at] == player_id);
    let rest = joined.remove(at);
    vstd::seq_lib::to_multiset_remove(joined, at);
    assert(rest.to_multiset() =~= room.all_players.to_multiset());
    assert forall|a: int, b: int| 0 <= a < b < rest.len() implies #[trigger] order(
        rest[a],
        rest[b],
    ) by {
        let a0 = if a < at { a } else { a + 1 };
        let b0 = if b < at { b } else { b + 1 };
        assert(rest[a] == joined[a0]);
        assert(rest[b] == joined[b0]);
        assert(order(joined[a0], joined[b0]));
    }
    vstd::seq_lib::lemma_sorted_unique(rest, room.all_players.sort_by(order), order);
}

} // verus!
