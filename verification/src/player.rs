use crate::error::{DomainError, DomainErrorKind, DomainResult};
use crate::id::PlayerId;
use vstd::prelude::*;

verus! {

/// Whether a player opened the room or joined it.
#[derive(Clone, Copy, Debug, PartialEq, Eq, Structural)]
pub enum PlayerKind {
    Host,
    Guest,
}

impl PlayerKind {
    /// The name of the kind, in contracts.
    pub open spec fn name(self) -> Seq<char> {
        match self {
            PlayerKind::Host => "host"@,
            PlayerKind::Guest => "guest"@,
        }
    }

    /// The name of the kind: `host` or `guest`.
    pub fn as_str(&self) -> (name: &'static str)
        ensures
            name@ == self.name(),
    {
        match self {
            PlayerKind::Host => "host",
            PlayerKind::Guest => "guest",
        }
    }

    /// The kind of the given name, if it names one.
    pub fn parse(name: &str) -> (kind: Option<PlayerKind>)
        ensures
            match kind {
                Some(kind) => name@ == kind.name(),
                None => name@ != PlayerKind::Host.name() && name@ != PlayerKind::Guest.name(),
            },
    {
        let given = name.to_owned();
        if given == "host".to_owned() {
            Some(PlayerKind::Host)
        } else if given == "guest".to_owned() {
            Some(PlayerKind::Guest)
        } else {
            None
        }
    }
}

/// The name of a player: text that is not blank.
#[derive(Debug, PartialEq)]
pub struct PlayerName(String);

impl View for PlayerName {
    type V = Seq<char>;

    closed spec fn view(&self) -> Seq<char> {
        self.0@
    }
}

impl PlayerName {
    #[verifier::type_invariant]
    spec fn not_blank(self) -> bool {
        self.0@.len() > 0
    }

    /// Accepts every name but the blank one.
    pub fn try_new(name: &str) -> (result: DomainResult<PlayerName>)
        ensures
            match result {
                Ok(made) => name@.len() > 0 && made@ == name@,
                Err(error) => name@.len() == 0 && error.is(
                    DomainErrorKind::InvalidInput,
                    "name should not be blank"@,
                ),
            },
    {
        if name.is_empty() {
            Err(DomainError::new(DomainErrorKind::InvalidInput, "name should not be blank"))
        } else {
            Ok(PlayerName(name.to_owned()))
        }
    }

    /// The name as text, which is never blank.
    pub fn raw(&self) -> (raw: &str)
        ensures
            raw@ == self@,
            raw@.len() > 0,
    {
        proof {
            use_type_invariant(self);
        }
        self.0.as_str()
    }

    /// The name as text of its own, in contracts.
    pub closed spec fn into_text(self) -> String {
        self.0
    }

    /// The text of a name reads as the name does.
    pub broadcast proof fn lemma_into_text(self)
        ensures
            #[trigger] self.into_text()@ == self@,
    {
    }
}

impl From<PlayerName> for String {
    fn from(name: PlayerName) -> (text: String)
    {
        name.0
    }
}

impl vstd::std_specs::convert::FromSpecImpl<PlayerName> for String {
    open spec fn obeys_from_spec() -> bool {
        true
    }

    open spec fn from_spec(name: PlayerName) -> String {
        name.into_text()
    }
}

/// What a player is, in contracts.
pub struct PlayerView {
    pub id: Seq<char>,
    pub kind: PlayerKind,
    pub name: Seq<char>,
}

/// Somebody who plays: an identifier, a kind and a name.
#[derive(Debug, PartialEq)]
pub struct Player {
    id: PlayerId,
    kind: PlayerKind,
    name: PlayerName,
}

impl View for Player {
    type V = PlayerView;

    closed spec fn view(&self) -> PlayerView {
        PlayerView { id: self.id@, kind: self.kind, name: self.name@ }
    }
}

impl Player {
    pub fn new(id: PlayerId, kind: PlayerKind, name: PlayerName) -> (player: Self)
        ensures
            player@ == (PlayerView { id: id@, kind, name: name@ }),
    {
        Player { id, kind, name }
    }

    pub fn id(&self) -> (id: &PlayerId)
        ensures
            id@ == self@.id,
    {
        &self.id
    }

    pub fn kind(&self) -> (kind: &PlayerKind)
        ensures
            *kind == self@.kind,
    {
        &self.kind
    }

    pub fn name(&self) -> (name: &PlayerName)
        ensures
            name@ == self@.name,
    {
        &self.name
    }
}

} // verus!
