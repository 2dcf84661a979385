use crate::error::{DomainError, DomainErrorKind, DomainResult};
use crate::id::{clone_ids, raw_ids, GameId, PlayerId, RoomId, ThemeId};
use crate::text::{decimal_text, push_decimal};
use crate::theme::Word;
use crate::time::Timestamp;
use vstd::prelude::*;

verus! {

/// The shortest game, in minutes.
pub const DEFAULT_MIN_LIMIT: u32 = 1;

/// The longest game, in minutes.
pub const DEFAULT_MAX_LIMIT: u32 = 60;

/// What `GameMinutes::try_new` reports for a number of minutes outside the
/// limits.
pub open spec fn outside_of_limits_message(minutes: nat) -> Seq<char> {
    decimal_text(minutes) + " is outside of limits. the range are min:"@ + decimal_text(
        DEFAULT_MIN_LIMIT as nat,
    ) + " ~ max:"@ + decimal_text(DEFAULT_MAX_LIMIT as nat)
}

/// How long a game lasts: a number of minutes within the limits. Its view is
/// that number.
#[derive(Debug, PartialEq)]
pub struct GameMinutes {
    minutes: u32,
}

impl View for GameMinutes {
    type V = nat;

    closed spec fn view(&self) -> nat {
        self.minutes as nat
    }
}

impl GameMinutes {
    #[verifier::type_invariant]
    spec fn within_limits(self) -> bool {
        DEFAULT_MIN_LIMIT <= self.minutes <= DEFAULT_MAX_LIMIT
    }

    /// Accepts the numbers of minutes from the shortest game to the longest.
    pub fn try_new(game_time_minutes: u32) -> (result: DomainResult<GameMinutes>)
        ensures
            match result {
                Ok(made) => DEFAULT_MIN_LIMIT <= game_time_minutes <= DEFAULT_MAX_LIMIT && made@
                    == game_time_minutes,
                Err(error) => !(DEFAULT_MIN_LIMIT <= game_time_minutes <= DEFAULT_MAX_LIMIT)
                    && error.is(
                    DomainErrorKind::InvalidInput,
                    outside_of_limits_message(game_time_minutes as nat),
                ),
            },
    {
        if game_time_minutes < DEFAULT_MIN_LIMIT || game_time_minutes > DEFAULT_MAX_LIMIT {
            let mut message = String::new();
            push_decimal(&mut message, game_time_minutes as usize);
            message.append(" is outside of limits. the range are min:");
            push_decimal(&mut message, DEFAULT_MIN_LIMIT as usize);
            message.append(" ~ max:");
            push_decimal(&mut message, DEFAULT_MAX_LIMIT as usize);
            assert(message@ =~= outside_of_limits_message(game_time_minutes as nat));
            Err(DomainError::new(DomainErrorKind::InvalidInput, message.as_str()))
        } else {
            Ok(GameMinutes { minutes: game_time_minutes })
        }
    }

    /// The number of minutes, which lies within the limits.
    pub fn raw_minutes(&self) -> (minutes: u32)
        ensures
            minutes == self@,
            DEFAULT_MIN_LIMIT <= minutes <= DEFAULT_MAX_LIMIT,
    {
        proof {
            use_type_invariant(self);
        }
        self.minutes
    }

    /// The instant at which a game ends that started at `started_at`: that
    /// many minutes later, to the nanosecond.
    pub fn calc_ended_at(&self, started_at: &Timestamp) -> (ended_at: Timestamp)
        requires
            started_at.seconds + 60 * self@ <= i64::MAX,
        ensures
            ended_at.seconds == started_at.seconds + 60 * self@,
            ended_at.nanos == started_at.nanos,
    {
        proof {
            use_type_invariant(self);
        }
        let length: i64 = 60 * (self.minutes as i64);
        Timestamp { seconds: started_at.seconds + length, nanos: started_at.nanos }
    }
}

impl Clone for GameMinutes {
    fn clone(&self) -> (copy: Self)
        ensures
            copy@ == self@,
    {
        proof {
            use_type_invariant(self);
        }
        GameMinutes { minutes: self.minutes }
    }
}

/// Where a game stands: players talk, then vote, then the game has ended.
#[derive(Clone, Copy, Debug, PartialEq, Eq, Structural)]
pub enum GameStatus {
    Talking,
    Voting,
    Ended,
}

impl GameStatus {
    /// The name of the status, in contracts.
    pub open spec fn name(self) -> Seq<char> {
        match self {
            GameStatus::Talking => "Talking"@,
            GameStatus::Voting => "Voting"@,
            GameStatus::Ended => "Ended"@,
        }
    }

    /// The name of the status: `Talking`, `Voting` or `Ended`.
    pub fn to_string(&self) -> (name: String)
        ensures
            name@ == self.name(),
    {
        match self {
            GameStatus::Talking => "Talking".to_owned(),
            GameStatus::Voting => "Voting".to_owned(),
            GameStatus::Ended => "Ended".to_owned(),
        }
    }

    /// The status of the given name, if it names one.
    pub fn parse(name: &str) -> (status: Option<GameStatus>)
        ensures
            match status {
                Some(status) => name@ == status.name(),
                None => name@ != GameStatus::Talking.name() && name@ != GameStatus::Voting.name()
                    && name@ != GameStatus::Ended.name(),
            },
    {
        let given = name.to_owned();
        if given == "Talking".to_owned() {
            Some(GameStatus::Talking)
        } else if given == "Voting".to_owned() {
            Some(GameStatus::Voting)
        } else if given == "Ended".to_owned() {
            Some(GameStatus::Ended)
        } else {
            None
        }
    }
}

/// What a group of players is, in contracts: the raw identifiers of its
/// players in order, and its word.
pub struct GroupView {
    pub players: Seq<Seq<char>>,
    pub word: Seq<char>,
}

/// The players who share the wolves' word.
#[derive(Debug, PartialEq)]
pub struct WolfGroup {
    players: Vec<PlayerId>,
    word: Word,
}

impl View for WolfGroup {
    type V = GroupView;

    closed spec fn view(&self) -> GroupView {
        GroupView { players: raw_ids(self.players@), word: self.word@ }
    }
}

impl WolfGroup {
    pub fn new(players: Vec<PlayerId>, word: Word) -> (group: Self)
        ensures
            group@ == (GroupView { players: raw_ids(players@), word: word@ }),
    {
        WolfGroup { players, word }
    }

    pub fn players(&self) -> (players: &Vec<PlayerId>)
        ensures
            raw_ids(players@) == self@.players,
    {
        &self.players
    }

    pub fn word(&self) -> (word: &Word)
        ensures
            word@ == self@.word,
    {
        &self.word
    }

    /// A group like this one with `id` added behind its players. This group
    /// stays as it is.
    pub fn new_with_added(&self, id: PlayerId) -> (result: DomainResult<Self>)
        ensures
            result is Ok,
            result->Ok_0@ == (GroupView { players: self@.players.push(id@), word: self@.word }),
    {
        let mut players = clone_ids(&self.players);
        players.push(id);
        assert(raw_ids(players@) =~= raw_ids(self.players@).push(id@));
        Ok(WolfGroup { players, word: self.word.clone() })
    }
}

impl Clone for WolfGroup {
    fn clone(&self) -> (copy: Self)
        ensures
            copy@ == self@,
    {
        WolfGroup { players: clone_ids(&self.players), word: self.word.clone() }
    }
}

/// The players who share the citizens' word.
#[derive(Debug, PartialEq)]
pub struct CitizenGroup {
    players: Vec<PlayerId>,
    word: Word,
}

impl View for CitizenGroup {
    type V = GroupView;

    closed spec fn view(&self) -> GroupView {
        GroupView { players: raw_ids(self.players@), word: self.word@ }
    }
}

impl CitizenGroup {
    pub fn new(players: Vec<PlayerId>, word: Word) -> (group: Self)
        ensures
            group@ == (GroupView { players: raw_ids(players@), word: word@ }),
    {
        CitizenGroup { players, word }
    }

    pub fn players(&self) -> (players: &Vec<PlayerId>)
        ensures
            raw_ids(players@) == self@.players,
    {
        &self.players
    }

    pub fn word(&self) -> (word: &Word)
        ensures
            word@ == self@.word,
    {
        &self.word
    }

    /// A group like this one with `id` added behind its players. This group
    /// stays as it is.
    pub fn new_with_added(&self, id: PlayerId) -> (result: DomainResult<Self>)
        ensures
            result is Ok,
            result->Ok_0@ == (GroupView { players: self@.players.push(id@), word: self@.word }),
    {
        let mut players = clone_ids(&self.players);
        players.push(id);
        assert(raw_ids(players@) =~= raw_ids(self.players@).push(id@));
        Ok(CitizenGroup { players, word: self.word.clone() })
    }
}

impl Clone for CitizenGroup {
    fn clone(&self) -> (copy: Self)
        ensures
            copy@ == self@,
    {
        CitizenGroup { players: clone_ids(&self.players), word: self.word.clone() }
    }
}

/// Whether a vote ended the voting: whether every player has voted.
#[derive(Clone, Copy, Debug, PartialEq, Eq, Structural)]
pub struct VoteResult {
    pub is_end: bool,
}

impl VoteResult {
    pub fn new(is_end: bool) -> (result: Self)
        ensures
            result.is_end == is_end,
    {
        VoteResult { is_end }
    }

    pub fn is_end(&self) -> (is_end: &bool)
        ensures
            *is_end == self.is_end,
    {
        &self.is_end
    }
}

/// What a vote is, in contracts: the raw identifiers of the player voted
/// for and of the player who votes.
pub struct VoteView {
    pub target: Seq<char>,
    pub voter: Seq<char>,
}

/// One player's vote for another.
#[derive(Debug, PartialEq)]
pub struct Vote {
    target: PlayerId,
    voter: PlayerId,
}

impl View for Vote {
    type V = VoteView;

    closed spec fn view(&self) -> VoteView {
        VoteView { target: self.target@, voter: self.voter@ }
    }
}

impl Vote {
    pub fn new(target: PlayerId, voter: PlayerId) -> (vote: Self)
        ensures
            vote@ == (VoteView { target: target@, voter: voter@ }),
    {
        Vote { target, voter }
    }

    pub fn target(&self) -> (target: &PlayerId)
        ensures
            target@ == self@.target,
    {
        &self.target
    }

    pub fn voter(&self) -> (voter: &PlayerId)
        ensures
            voter@ == self@.voter,
    {
        &self.voter
    }
}

impl Clone for Vote {
    fn clone(&self) -> (copy: Self)
        ensures
            copy@ == self@,
    {
        Vote { target: self.target.clone(), voter: self.voter.clone() }
    }
}

/// The votes of a sequence, as contracts see them.
pub open spec fn vote_views(votes: Seq<Vote>) -> Seq<VoteView> {
    votes.map_values(|vote: Vote| vote@)
}

/// Whether `voter` has cast one of `votes`.
pub open spec fn has_voted(votes: Seq<VoteView>, voter: Seq<char>) -> bool {
    exists|i: int| 0 <= i < votes.len() && (#[trigger] votes[i]).voter == voter
}

/// Whether no two of `votes` come from the same voter.
pub open spec fn one_vote_each(votes: Seq<VoteView>) -> bool {
    forall|i: int, j: int|
        0 <= i < j < votes.len() ==> (#[trigger] votes[i]).voter != (#[trigger] votes[j]).voter
}

/// The votes after `vote` has been cast: the vote of a player who has not
/// voted yet comes behind the others, and every other vote is dropped.
pub open spec fn cast(votes: Seq<VoteView>, vote: VoteView) -> Seq<VoteView> {
    if has_voted(votes, vote.voter) {
        votes
    } else {
        votes.push(vote)
    }
}

/// The votes after each of `attempts` has been cast in turn.
pub open spec fn cast_all(votes: Seq<VoteView>, attempts: Seq<VoteView>) -> Seq<VoteView>
    decreases attempts.len(),
{
    if attempts.len() == 0 {
        votes
    } else {
        cast(cast_all(votes, attempts.drop_last()), attempts.last())
    }
}

/// Casting votes never gives a player a second vote: however many votes are
/// cast, in whatever order, no two of the votes that are kept come from the
/// same voter.
pub proof fn lemma_one_vote_each(votes: Seq<VoteView>, attempts: Seq<VoteView>)
    requires
        one_vote_each(votes),
    ensures
        one_vote_each(cast_all(votes, attempts)),
    decreases attempts.len(),
{
    if attempts.len() > 0 {
        lemma_one_vote_each(votes, attempts.drop_last());
    }
}

/// What a vote box reports for a vote of a player who has voted already.
pub open spec fn already_voted_message(vote: VoteView) -> Seq<char> {
    "already voted in voter. vote:Vote { target: "@ + vote.target + ", voter: "@ + vote.voter
        + " }"@
}

/// The votes cast so far, in the order in which they were cast. Its view is
/// the sequence of these votes.
#[derive(Debug, PartialEq)]
pub struct VoteBox {
    votes: Vec<Vote>,
}

impl View for VoteBox {
    type V = Seq<VoteView>;

    closed spec fn view(&self) -> Seq<VoteView> {
        vote_views(self.votes@)
    }
}

impl VoteBox {
    pub fn new(votes: Vec<Vote>) -> (vote_box: Self)
        ensures
            vote_box@ == vote_views(votes@),
    {
        VoteBox { votes }
    }

    pub fn votes(&self) -> (votes: &Vec<Vote>)
        ensures
            vote_views(votes@) == self@,
    {
        &self.votes
    }

    /// Whether `voter` has cast one of the votes in this box.
    pub fn has_voted(&self, voter: &PlayerId) -> (found: bool)
        ensures
            found == has_voted(self@, voter@),
    {
        let mut i: usize = 0;
        while i < self.votes.len()
            invariant
                i <= self.votes@.len(),
                forall|k: int| 0 <= k < i ==> (#[trigger] self@[k]).voter != voter@,
            decreases self.votes@.len() - i,
        {
            if self.votes[i].voter == *voter {
                assert(self@[i as int].voter == voter@);
                return true;
            }
            i += 1;
        }
        false
    }

    /// A box like this one with `vote` added behind its votes, unless the
    /// voter of `vote` has voted already. This box stays as it is.
    pub fn new_with_added(&self, vote: Vote) -> (result: DomainResult<VoteBox>)
        ensures
            match result {
                Ok(vote_box) => !has_voted(self@, vote@.voter) && vote_box@ == self@.push(vote@),
                Err(error) => has_voted(self@, vote@.voter) && error.is(
                    DomainErrorKind::InvalidInput,
                    already_voted_message(vote@),
                ),
            },
    {
        if self.has_voted(&vote.voter) {
            let mut message = "already voted in voter. vote:Vote { target: ".to_owned();
            message.append(vote.target.raw_id().as_str());
            message.append(", voter: ");
            message.append(vote.voter.raw_id().as_str());
            message.append(" }");
            Err(DomainError::new(DomainErrorKind::InvalidInput, message.as_str()))
        } else {
            let mut new_votes = self.votes.clone();
            assert(vote_views(new_votes@) =~= self@);
            new_votes.push(vote);
            assert(vote_views(new_votes@) =~= self@.push(vote@));
            Ok(VoteBox { votes: new_votes })
        }
    }
}

impl Clone for VoteBox {
    fn clone(&self) -> (copy: Self)
        ensures
            copy@ == self@,
    {
        let votes = self.votes.clone();
        assert(vote_views(votes@) =~= self@);
        VoteBox { votes }
    }
}

/// What a game is, in contracts.
pub struct GameView {
    pub id: Seq<char>,
    pub room_id: Seq<char>,
    pub theme_id: Seq<char>,
    pub ended_at: Timestamp,
    pub wolves: GroupView,
    pub citizen: GroupView,
    pub votes: Seq<VoteView>,
    pub status: GameStatus,
}

impl GameView {
    /// How many players the game has.
    pub open spec fn all_player_count(self) -> nat {
        self.wolves.players.len() + self.citizen.players.len()
    }

    /// This game with `vote` added behind its votes.
    pub open spec fn with_vote(self, vote: VoteView) -> GameView {
        GameView { votes: self.votes.push(vote), ..self }
    }
}

/// One round: who the wolves and the citizens are, what they have voted, and
/// where the round stands.
#[derive(Debug, PartialEq)]
pub struct Game {
    id: GameId,
    room_id: RoomId,
    theme_id: ThemeId,
    ended_at: Timestamp,
    wolves: WolfGroup,
    citizen: CitizenGroup,
    vote_box: VoteBox,
    status: GameStatus,
}

impl View for Game {
    type V = GameView;

    closed spec fn view(&self) -> GameView {
        GameView {
            id: self.id@,
            room_id: self.room_id@,
            theme_id: self.theme_id@,
            ended_at: self.ended_at,
            wolves: self.wolves@,
            citizen: self.citizen@,
            votes: self.vote_box@,
            status: self.status,
        }
    }
}

impl Game {
    pub fn new(
        id: GameId,
        room_id: RoomId,
        theme_id: ThemeId,
        ended_at: Timestamp,
        wolves: WolfGroup,
        citizen: CitizenGroup,
        vote_box: VoteBox,
        status: GameStatus,
    ) -> (game: Self)
        ensures
            game@ == (GameView {
                id: id@,
                room_id: room_id@,
                theme_id: theme_id@,
                ended_at,
                wolves: wolves@,
                citizen: citizen@,
                votes: vote_box@,
                status,
            }),
    {
        Game { id, room_id, theme_id, ended_at, wolves, citizen, vote_box, status }
    }

    /// Makes a game of its parts. No rule constrains them, so this succeeds.
    pub fn try_new(
        id: GameId,
        room_id: RoomId,
        theme_id: ThemeId,
        ended_at: Timestamp,
        wolves: WolfGroup,
        citizen: CitizenGroup,
        vote_box: VoteBox,
        status: GameStatus,
    ) -> (result: DomainResult<Self>)
        ensures
            result is Ok,
            result->Ok_0@ == (GameView {
                id: id@,
                room_id: room_id@,
                theme_id: theme_id@,
                ended_at,
                wolves: wolves@,
                citizen: citizen@,
                votes: vote_box@,
                status,
            }),
    {
        Ok(Game { id, room_id, theme_id, ended_at, wolves, citizen, vote_box, status })
    }

    pub fn id(&self) -> (id: &GameId)
        ensures
            id@ == self@.id,
    {
        &self.id
    }

    pub fn room_id(&self) -> (room_id: &RoomId)
        ensures
            room_id@ == self@.room_id,
    {
        &self.room_id
    }

    pub fn theme_id(&self) -> (theme_id: &ThemeId)
        ensures
            theme_id@ == self@.theme_id,
    {
        &self.theme_id
    }

    pub fn ended_at(&self) -> (ended_at: &Timestamp)
        ensures
            *ended_at == self@.ended_at,
    {
        &self.ended_at
    }

    pub fn wolves(&self) -> (wolves: &WolfGroup)
        ensures
            wolves@ == self@.wolves,
    {
        &self.wolves
    }

    pub fn citizen(&self) -> (citizen: &CitizenGroup)
        ensures
            citizen@ == self@.citizen,
    {
        &self.citizen
    }

    pub fn vote_box(&self) -> (vote_box: &VoteBox)
        ensures
            vote_box@ == self@.votes,
    {
        &self.vote_box
    }

    pub fn status(&self) -> (status: &GameStatus)
        ensures
            *status == self@.status,
    {
        &self.status
    }

    /// Moves the game to `status`. Nothing guards the move: whoever drives
    /// the game decides when players talk, vote and stop.
    pub fn set_status(&mut self, status: GameStatus) -> (result: DomainResult<()>)
        ensures
            result is Ok,
            final(self)@ == (GameView { status, ..old(self)@ }),
    {
        self.status = status;
        Ok(())
    }

    /// Casts `vote`. While the game is voting, the vote of a player who has
    /// not voted yet is added behind the votes cast so far, and the result
    /// says whether there are now as many votes as players. Every other vote
    /// is refused and leaves the game as it was.
    pub fn vote(&mut self, vote: Vote) -> (result: DomainResult<VoteResult>)
        ensures
            old(self)@.status == GameStatus::Voting ==> final(self)@.votes == cast(
                old(self)@.votes,
                vote@,
            ),
            match result {
                Ok(vote_result) => {
                    &&& old(self)@.status == GameStatus::Voting
                    &&& !has_voted(old(self)@.votes, vote@.voter)
                    &&& final(self)@ == old(self)@.with_vote(vote@)
                    &&& vote_result.is_end == (final(self)@.votes.len()
                        == final(self)@.all_player_count())
                },
                Err(error) => {
                    &&& final(self)@ == old(self)@
                    &&& if old(self)@.status != GameStatus::Voting {
                        error.is(DomainErrorKind::Fail, "game status is not voting"@)
                    } else {
                        has_voted(old(self)@.votes, vote@.voter) && error.is(
                            DomainErrorKind::InvalidInput,
                            already_voted_message(vote@),
                        )
                    }
                },
            },
    {
        if self.status != GameStatus::Voting {
            Err(DomainError::new(DomainErrorKind::Fail, "game status is not voting"))
        } else {
            match self.vote_box.new_with_added(vote) {
                Ok(vote_box) => {
                    self.vote_box = vote_box;
                    let votes = self.vote_box.votes.len();
                    let wolves = self.wolves.players.len();
                    let citizens = self.citizen.players.len();
                    Ok(VoteResult::new(votes >= wolves && votes - wolves == citizens))
                },
                Err(error) => Err(error),
            }
        }
    }
}

impl Clone for Game {
    fn clone(&self) -> (copy: Self)
        ensures
            copy@ == self@,
    {
        Game {
            id: self.id.clone(),
            room_id: self.room_id.clone(),
            theme_id: self.theme_id.clone(),
            ended_at: self.ended_at,
            wolves: self.wolves.clone(),
            citizen: self.citizen.clone(),
            vote_box: self.vote_box.clone(),
            status: self.status,
        }
    }
}

} // verus!
