use vstd::prelude::*;

verus! {

/// What a request to open a room is, in contracts.
pub struct RoomCreateView {
    pub player_count: nat,
    pub wolf_count: nat,
    pub host_player_id: Seq<char>,
    pub game_minutes: nat,
    pub theme_kind: Seq<char>,
}

/// A request to open a room, as it comes in: nothing in it is checked yet.
#[derive(Debug, PartialEq)]
pub struct RoomCreate {
    player_count: usize,
    wolf_count: usize,
    host_player_id: String,
    game_minutes: u32,
    theme_kind: String,
}

impl View for RoomCreate {
    type V = RoomCreateView;

    closed spec fn view(&self) -> RoomCreateView {
        RoomCreateView {
            player_count: self.player_count as nat,
            wolf_count: self.wolf_count as nat,
            host_player_id: self.host_player_id@,
            game_minutes: self.game_minutes as nat,
            theme_kind: self.theme_kind@,
        }
    }
}

impl RoomCreate {
    pub fn new(
        player_count: usize,
        wolf_count: usize,
        host_player_id: String,
        game_minutes: u32,
        theme_kind: String,
    ) -> (command: Self)
        ensures
            command@ == (RoomCreateView {
                player_count: player_count as nat,
                wolf_count: wolf_count as nat,
                host_player_id: host_player_id@,
                game_minutes: game_minutes as nat,
                theme_kind: theme_kind@,
            }),
    {
        RoomCreate { player_count, wolf_count, host_player_id, game_minutes, theme_kind }
    }

    pub fn player_count(&self) -> (player_count: &usize)
        ensures
            *player_count == self@.player_count,
    {
        &self.player_count
    }

    pub fn wolf_count(&self) -> (wolf_count: &usize)
        ensures
            *wolf_count == self@.wolf_count,
    {
        &self.wolf_count
    }

    pub fn host_player_id(&self) -> (host_player_id: &String)
        ensures
            host_player_id@ == self@.host_player_id,
    {
        &self.host_player_id
    }

    pub fn game_minutes(&self) -> (game_minutes: &u32)
        ensures
            *game_minutes == self@.game_minutes,
    {
        &self.game_minutes
    }

    pub fn theme_kind(&self) -> (theme_kind: &String)
        ensures
            theme_kind@ == self@.theme_kind,
    {
        &self.theme_kind
    }
}

/// A request to start the game of a room. Its view is the raw identifier of
/// the room.
#[derive(Debug, PartialEq)]
pub struct StartGame {
    room_id: String,
}

impl View for StartGame {
    type V = Seq<char>;

    closed spec fn view(&self) -> Seq<char> {
        self.room_id@
    }
}

impl StartGame {
    pub fn new(room_id: String) -> (command: Self)
        ensures
            command@ == room_id@,
    {
        StartGame { room_id }
    }

    pub fn room_id(&self) -> (room_id: &String)
        ensures
            room_id@ == self@,
    {
        &self.room_id
    }
}

/// What a request about a player and a room is, in contracts.
pub struct RoomPlayerView {
    pub room_id: Seq<char>,
    pub player_id: Seq<char>,
}

/// A request to let a player join a room.
#[derive(Debug, PartialEq)]
pub struct RoomJoin {
    room_id: String,
    player_id: String,
}

impl View for RoomJoin {
    type V = RoomPlayerView;

    closed spec fn view(&self) -> RoomPlayerView {
        RoomPlayerView { room_id: self.room_id@, player_id: self.player_id@ }
    }
}

impl RoomJoin {
    pub fn new(room_id: String, player_id: String) -> (command: Self)
        ensures
            command@ == (RoomPlayerView { room_id: room_id@, player_id: player_id@ }),
    {
        RoomJoin { room_id, player_id }
    }

    pub fn room_id(&self) -> (room_id: &String)
        ensures
            room_id@ == self@.room_id,
    {
        &self.room_id
    }

    pub fn player_id(&self) -> (player_id: &String)
        ensures
            player_id@ == self@.player_id,
    {
        &self.player_id
    }
}

/// A request to let a player leave a room.
#[derive(Debug, PartialEq)]
pub struct RoomLeave {
    room_id: String,
    player_id: String,
}

impl View for RoomLeave {
    type V = RoomPlayerView;

    closed spec fn view(&self) -> RoomPlayerView {
        RoomPlayerView { room_id: self.room_id@, player_id: self.player_id@ }
    }
}

impl RoomLeave {
    pub fn new(room_id: String, player_id: String) -> (command: Self)
        ensures
            command@ == (RoomPlayerView { room_id: room_id@, player_id: player_id@ }),
    {
        RoomLeave { room_id, player_id }
    }

    pub fn room_id(&self) -> (room_id: &String)
        ensures
            room_id@ == self@.room_id,
    {
        &self.room_id
    }

    pub fn player_id(&self) -> (player_id: &String)
        ensures
            player_id@ == self@.player_id,
    {
        &self.player_id
    }
}

/// What a request to vote is, in contracts.
pub struct VoteCommandView {
    pub target: Seq<char>,
    pub voter: Seq<char>,
}

/// A request of one player to vote for another.
#[derive(Debug, PartialEq)]
pub struct Vote {
    target: String,
    voter: String,
}

impl View for Vote {
    type V = VoteCommandView;

    closed spec fn view(&self) -> VoteCommandView {
        VoteCommandView { target: self.target@, voter: self.voter@ }
    }
}

impl Vote {
    pub fn new(target: String, voter: String) -> (command: Self)
        ensures
            command@ == (VoteCommandView { target: target@, voter: voter@ }),
    {
        Vote { target, voter }
    }

    pub fn target(&self) -> (target: &String)
        ensures
            target@ == self@.target,
    {
        &self.target
    }

    pub fn voter(&self) -> (voter: &String)
        ensures
            voter@ == self@.voter,
    {
        &self.voter
    }
}

} // verus!
