use crate::error::{DomainError, DomainErrorKind, DomainResult, RepositoryResult};
use crate::game::{CitizenGroup, GroupView, WolfGroup};
use crate::id::{clone_ids, raw_ids, PlayerId, RoomId, ThemeId};
use crate::random::RandomSource;
use crate::room::{Room, RoomView};
use crate::text::{decimal_text, push_decimal, push_quoted, quoted_text};
use crate::theme::{word_pair_of, Theme, ThemeKind, ThemeView};
use crate::time::Timestamp;
use vstd::prelude::*;
use vstd::seq_lib::{to_multiset_build, to_multiset_insert, to_multiset_remove};

verus! {

/// What the start of a game settles, in contracts.
pub struct NewGameView {
    pub room_id: Seq<char>,
    pub theme_id: Seq<char>,
    pub ended_at: Timestamp,
    pub wolf_group: GroupView,
    pub citizen_group: GroupView,
}

/// What the start of a game settles: the room and the theme of the game,
/// when it ends, and who plays on which side with which word. A game is made
/// of these and an identifier.
#[derive(Debug, PartialEq)]
pub struct NewGame {
    pub room_id: RoomId,
    pub theme_id: ThemeId,
    pub ended_at: Timestamp,
    pub wolf_group: WolfGroup,
    pub citizen_group: CitizenGroup,
}

impl View for NewGame {
    type V = NewGameView;

    open spec fn view(&self) -> NewGameView {
        NewGameView {
            room_id: self.room_id@,
            theme_id: self.theme_id@,
            ended_at: self.ended_at,
            wolf_group: self.wolf_group@,
            citizen_group: self.citizen_group@,
        }
    }
}

/// How `{:?}` writes a theme kind.
pub open spec fn theme_kind_text(kind: Seq<char>) -> Seq<char> {
    "ThemeKind("@ + quoted_text(kind) + ")"@
}

/// What the start of a game reports when the lookup of themes failed.
pub open spec fn lookup_failed_message(kind: Seq<char>) -> Seq<char> {
    "not found themes by search theme_kind:"@ + theme_kind_text(kind)
}

/// What the start of a game reports when no theme is of the room's kind.
pub open spec fn no_theme_message(kind: Seq<char>) -> Seq<char> {
    "themes of related of "@ + theme_kind_text(kind) + " does not exists"@
}

/// What the start of a game reports when the room holds fewer players than
/// the game has wolves.
pub open spec fn too_few_players_message(players: nat, wolves: nat) -> Seq<char> {
    "players are fewer than wolves. current player count is "@ + decimal_text(players)
        + ", wolf count is "@ + decimal_text(wolves)
}

/// The instant that lies `minutes` minutes after `started_at`.
pub open spec fn minutes_after(started_at: Timestamp, minutes: nat) -> Timestamp {
    Timestamp { seconds: (started_at.seconds + 60 * minutes) as i64, nanos: started_at.nanos }
}

/// The game that starts in `room` at `now` with `theme`, once the players
/// stand in the order `shuffled` and it is settled whether the first word
/// goes to the wolves: the first players of that order, as many as the game
/// has wolves, are the wolves, and the others are the citizens.
pub open spec fn assigned(
    room: RoomView,
    theme: ThemeView,
    shuffled: Seq<Seq<char>>,
    first_to_wolves: bool,
    now: Timestamp,
) -> NewGameView {
    NewGameView {
        room_id: room.id,
        theme_id: theme.id,
        ended_at: minutes_after(now, room.game_time),
        wolf_group: GroupView {
            players: shuffled.take(room.wolf_count as int),
            word: word_pair_of(theme, first_to_wolves).0,
        },
        citizen_group: GroupView {
            players: shuffled.skip(room.wolf_count as int),
            word: word_pair_of(theme, first_to_wolves).1,
        },
    }
}

/// Whether `game` is a start of a game in `room` at `now` with one of
/// `themes`: every player of the room is on one side and on one only, the
/// wolves are as many as the room asks for, one side has one word of the
/// theme and the other side the other, and the game lasts as long as the
/// room says.
pub open spec fn is_start_of(
    game: NewGameView,
    room: RoomView,
    themes: Seq<ThemeView>,
    now: Timestamp,
) -> bool {
    &&& game.room_id == room.id
    &&& game.ended_at == minutes_after(now, room.game_time)
    &&& game.wolf_group.players.len() == room.wolf_count
    &&& (game.wolf_group.players + game.citizen_group.players).to_multiset()
        == room.all_players.to_multiset()
    &&& exists|i: int, first_to_wolves: bool|
        0 <= i < themes.len() && game.theme_id == (#[trigger] themes[i]).id && (
            game.wolf_group.word,
            game.citizen_group.word,
        ) == #[trigger] word_pair_of(themes[i], first_to_wolves)
}

/// The themes of a sequence, as contracts see them.
pub open spec fn theme_views(themes: Seq<Theme>) -> Seq<ThemeView> {
    themes.map_values(|theme: Theme| theme@)
}

/// Applying one function to every item of two sequences that hold the same
/// items, each as often, gives sequences that again hold the same items,
/// each as often.
pub proof fn lemma_map_same_items<A, B>(a: Seq<A>, b: Seq<A>, f: spec_fn(A) -> B)
    requires
        a.to_multiset() == b.to_multiset(),
    ensures
        a.map_values(f).to_multiset() == b.map_values(f).to_multiset(),
    decreases a.len(),
{
    a.to_multiset_ensures();
    b.to_multiset_ensures();
    if a.len() == 0 {
        assert(a.map_values(f) =~= b.map_values(f));
    } else {
        let x = a.last();
        let rest_a = a.drop_last();
        assert(a =~= rest_a.push(x));
        to_multiset_build(rest_a, x);
        assert(b.to_multiset().count(x) > 0);
        let at = choose|at: int| 0 <= at < b.len() && b[at] == x;
        let rest_b = b.remove(at);
        to_multiset_remove(b, at);
        assert(rest_a.to_multiset() =~= rest_b.to_multiset());
        lemma_map_same_items(rest_a, rest_b, f);
        assert(a.map_values(f) =~= rest_a.map_values(f).push(f(x)));
        to_multiset_build(rest_a.map_values(f), f(x));
        assert(b.map_values(f) =~= rest_b.map_values(f).insert(at, f(x)));
        to_multiset_insert(rest_b.map_values(f), at, f(x));
    }
}

fn theme_kind_message(before: &str, kind: &ThemeKind, after: &str) -> (message: String)
    ensures
        message@ == before@ + theme_kind_text(kind@) + after@,
{
    let mut message = before.to_owned();
    message.append("ThemeKind(");
    push_quoted(&mut message, kind.raw_kind());
    message.append(")");
    message.append(after);
    assert(message@ =~= before@ + theme_kind_text(kind@) + after@);
    message
}

/// Divides players who stand in a settled order into wolves and citizens and
/// hands each side its word: the game that `assigned` describes. Where the
/// players are fewer than the wolves that the room asks for, no game starts.
pub fn assign_roles(
    room: &Room,
    theme: &Theme,
    shuffled: Vec<PlayerId>,
    first_to_wolves: bool,
    now: &Timestamp,
) -> (result: DomainResult<NewGame>)
    requires
        now.seconds + 60 * room@.game_time <= i64::MAX,
    ensures
        match result {
            Ok(game) => room@.wolf_count <= shuffled@.len() && game@ == assigned(
                room@,
                theme@,
                raw_ids(shuffled@),
                first_to_wolves,
                *now,
            ),
            Err(error) => room@.wolf_count > shuffled@.len() && error.is(
                DomainErrorKind::Fail,
                too_few_players_message(shuffled@.len(), room@.wolf_count),
            ),
        },
{
    let wolf_count = *room.wolf_count().raw_count();
    if wolf_count > shuffled.len() {
        let mut message = "players are fewer than wolves. current player count is ".to_owned();
        push_decimal(&mut message, shuffled.len());
        message.append(", wolf count is ");
        push_decimal(&mut message, wolf_count);
        return Err(DomainError::new(DomainErrorKind::Fail, message.as_str()));
    }
    let mut wolves = shuffled;
    let citizens = wolves.split_off(wolf_count);
    proof {
        assert(raw_ids(wolves@) =~= raw_ids(shuffled@).take(wolf_count as int));
        assert(raw_ids(citizens@) =~= raw_ids(shuffled@).skip(wolf_count as int));
    }
    let (wolf_word, citizen_word) = theme.word_pair(first_to_wolves);
    let wolf_group = WolfGroup::new(wolves, wolf_word.clone());
    let citizen_group = CitizenGroup::new(citizens, citizen_word.clone());
    let ended_at = room.game_time().calc_ended_at(now);
    Ok(
        NewGame {
            room_id: room.id().clone(),
            theme_id: theme.id().clone(),
            ended_at,
            wolf_group,
            citizen_group,
        },
    )
}

/// Starts a game in `room` at `now`, given what the lookup of the themes of
/// the room's kind brought. A failed lookup is reported with its cause, and
/// so is a lookup that brought no theme. Otherwise one theme is picked at
/// random, the players are shuffled and divided into wolves and citizens,
/// and one random draw settles which side gets which word of the theme.
pub fn start_game(
    room: &Room,
    themes: RepositoryResult<Vec<Theme>>,
    rng: &mut RandomSource,
    now: &Timestamp,
) -> (result: DomainResult<NewGame>)
    requires
        old(rng).never_stalls(),
        now.seconds + 60 * room@.game_time <= i64::MAX,
    ensures
        final(rng).step() == old(rng).step(),
        match themes {
            Err(cause) => result matches Err(error) && {
                &&& error.kind == DomainErrorKind::Fail
                &&& error.message@ == lookup_failed_message(room@.theme_kind)
                &&& error.source == Some(cause)
            },
            Ok(found) => if found@.len() == 0 {
                result matches Err(error) && error.is(
                    DomainErrorKind::Fail,
                    no_theme_message(room@.theme_kind),
                )
            } else if room@.wolf_count > room@.all_players.len() {
                result matches Err(error) && error.is(
                    DomainErrorKind::Fail,
                    too_few_players_message(room@.all_players.len(), room@.wolf_count),
                )
            } else {
                result matches Ok(game) && is_start_of(game@, room@, theme_views(found@), *now)
            },
        },
{
    match themes {
        Err(cause) => {
            let message = theme_kind_message(
                "not found themes by search theme_kind:",
                room.theme_kind(),
                "",
            );
            proof {
                reveal_strlit("");
                assert(message@ =~= lookup_failed_message(room@.theme_kind));
            }
            Err(DomainError::new_with_source(DomainErrorKind::Fail, message.as_str(), cause))
        },
        Ok(found) => {
            match rng.pick(&found) {
                None => {
                    let message = theme_kind_message(
                        "themes of related of ",
                        room.theme_kind(),
                        " does not exists",
                    );
                    Err(DomainError::new(DomainErrorKind::Fail, message.as_str()))
                },
                Some(theme) => {
                    let mut players = clone_ids(room.all_players());
                    let ghost before = players@;
                    rng.shuffle(&mut players);
                    let first_to_wolves = rng.next_bool();
                    proof {
                        lemma_map_same_items(players@, before, |id: PlayerId| id@);
                        raw_ids(players@).to_multiset_ensures();
                        room@.all_players.to_multiset_ensures();
                        let index = choose|index: int|
                            0 <= index < found@.len() && found@[index] == *theme;
                        assert(theme_views(found@)[index] == theme@);
                        let shuffled = raw_ids(players@);
                        let count = room@.wolf_count as int;
                        if count <= shuffled.len() {
                            assert(shuffled.take(count) + shuffled.skip(count) =~= shuffled);
                        }
                    }
                    assign_roles(room, theme, players, first_to_wolves, now)
                },
            }
        },
    }
}

/// The start of a game divides the players of the room: the wolves are as
/// many as the room asks for, the citizens are all the others, every player
/// of the room is on a side, nobody else is, and nobody is on both sides or
/// twice on one.
pub proof fn lemma_sides_divide_the_players(
    game: NewGameView,
    room: RoomView,
    themes: Seq<ThemeView>,
    now: Timestamp,
)
    requires
        room.is_valid(),
        is_start_of(game, room, themes, now),
    ensures
        game.wolf_group.players.len() == room.wolf_count,
        game.citizen_group.players.len() == room.all_players.len() - room.wolf_count,
        (game.wolf_group.players + game.citizen_group.players).no_duplicates(),
        forall|player: Seq<char>|
            room.all_players.contains(player) <==> game.wolf_group.players.contains(player)
                || game.citizen_group.players.contains(player),
        forall|player: Seq<char>|
            !(game.wolf_group.players.contains(player) && game.citizen_group.players.contains(
                player,
            )),
{
    let wolves = game.wolf_group.players;
    let citizens = game.citizen_group.players;
    let both = wolves + citizens;
    crate::room::lemma_same_items(both, room.all_players);
    both.to_multiset_ensures();
    room.all_players.to_multiset_ensures();
    assert forall|player: Seq<char>|
        room.all_players.contains(player) <==> wolves.contains(player) || citizens.contains(
            player,
        ) by {
        assert(both.contains(player) <==> both.to_multiset().count(player) > 0);
        assert(room.all_players.contains(player) <==> room.all_players.to_multiset().count(player)
            > 0);
        if wolves.contains(player) {
            let i = choose|i: int| 0 <= i < wolves.len() && wolves[i] == player;
            assert(both[i] == player);
        }
        if citizens.contains(player) {
            let i = choose|i: int| 0 <= i < citizens.len() && citizens[i] == player;
            assert(both[wolves.len() + i] == player);
        }
        if both.contains(player) {
            let i = choose|i: int| 0 <= i < both.len() && both[i] == player;
            if i < wolves.len() {
                assert(wolves[i] == player);
            } else {
                assert(citizens[i - wolves.len()] == player);
            }
        }
    }
    assert forall|player: Seq<char>|
        !(wolves.contains(player) && citizens.contains(player)) by {
        if wolves.contains(player) && citizens.contains(player) {
            let i = choose|i: int| 0 <= i < wolves.len() && wolves[i] == player;
            let j = choose|j: int| 0 <= j < citizens.len() && citizens[j] == player;
            assert(both[i] == player);
            assert(both[wolves.len() + j] == player);
        }
    }
}

/// The start of a game hands out the two words of one theme: one side has
/// the first word of the theme of the game and the other side the second.
/// So where no theme has the same word twice, the sides have different
/// words.
pub proof fn lemma_words_are_complementary(
    game: NewGameView,
    room: RoomView,
    themes: Seq<ThemeView>,
    now: Timestamp,
)
    requires
        is_start_of(game, room, themes, now),
    ensures
        exists|i: int|
            0 <= i < themes.len() && game.theme_id == (#[trigger] themes[i]).id && {
                ||| (game.wolf_group.word == themes[i].first && game.citizen_group.word
                    == themes[i].second)
                ||| (game.wolf_group.word == themes[i].second && game.citizen_group.word
                    == themes[i].first)
            },
        (forall|i: int| 0 <= i < themes.len() ==> (#[trigger] themes[i]).first != themes[i].second)
            ==> game.wolf_group.word != game.citizen_group.word,
{
    let (i, first_to_wolves) = choose|i: int, first_to_wolves: bool|
        0 <= i < themes.len() && game.theme_id == (#[trigger] themes[i]).id && (
            game.wolf_group.word,
            game.citizen_group.word,
        ) == #[trigger] word_pair_of(themes[i], first_to_wolves);
    assert(0 <= i < themes.len() && game.theme_id == themes[i].id);
}

} // verus!
