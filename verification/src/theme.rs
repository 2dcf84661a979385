use crate::error::{DomainError, DomainErrorKind, DomainResult};
use crate::id::ThemeId;
use crate::random::RandomSource;
use vstd::prelude::*;

verus! {

/// The kind of a theme: a name that is not blank.
#[derive(Debug, PartialEq)]
pub struct ThemeKind(String);

impl View for ThemeKind {
    type V = Seq<char>;

    closed spec fn view(&self) -> Seq<char> {
        self.0@
    }
}

impl ThemeKind {
    #[verifier::type_invariant]
    spec fn not_blank(self) -> bool {
        self.0@.len() > 0
    }

    /// Accepts every kind but the blank one.
    pub fn try_new(kind: &str) -> (result: DomainResult<Self>)
        ensures
            match result {
                Ok(made) => kind@.len() > 0 && made@ == kind@,
                Err(error) => kind@.len() == 0 && error.is(
                    DomainErrorKind::InvalidInput,
                    "kind should not be blank"@,
                ),
            },
    {
        if kind.is_empty() {
            Err(DomainError::new(DomainErrorKind::InvalidInput, "kind should not be blank"))
        } else {
            Ok(ThemeKind(kind.to_owned()))
        }
    }

    /// The kind as text, which is never blank.
    pub fn raw_kind(&self) -> (raw: &str)
        ensures
            raw@ == self@,
            raw@.len() > 0,
    {
        proof {
            use_type_invariant(self);
        }
        self.0.as_str()
    }
}

impl ThemeKind {
    /// The kind as text of its own, in contracts.
    pub closed spec fn into_text(self) -> String {
        self.0
    }

    /// The text of a kind reads as the kind does.
    pub broadcast proof fn lemma_into_text(self)
        ensures
            #[trigger] self.into_text()@ == self@,
    {
    }
}

impl From<ThemeKind> for String {
    fn from(kind: ThemeKind) -> (text: String)
    {
        kind.0
    }
}

impl vstd::std_specs::convert::FromSpecImpl<ThemeKind> for String {
    open spec fn obeys_from_spec() -> bool {
        true
    }

    open spec fn from_spec(kind: ThemeKind) -> String {
        kind.into_text()
    }
}

impl Clone for ThemeKind {
    fn clone(&self) -> (copy: Self)
        ensures
            copy@ == self@,
    {
        proof {
            use_type_invariant(self);
        }
        ThemeKind(self.0.clone())
    }
}

/// A secret word: text that is not blank.
#[derive(Debug, PartialEq)]
pub struct Word(String);

impl View for Word {
    type V = Seq<char>;

    closed spec fn view(&self) -> Seq<char> {
        self.0@
    }
}

impl Word {
    #[verifier::type_invariant]
    spec fn not_blank(self) -> bool {
        self.0@.len() > 0
    }

    /// Accepts every word but the blank one.
    pub fn try_new(word: &str) -> (result: DomainResult<Self>)
        ensures
            match result {
                Ok(made) => word@.len() > 0 && made@ == word@,
                Err(error) => word@.len() == 0 && error.is(
                    DomainErrorKind::InvalidInput,
                    "word should not be blank"@,
                ),
            },
    {
        if word.is_empty() {
            Err(DomainError::new(DomainErrorKind::InvalidInput, "word should not be blank"))
        } else {
            Ok(Word(word.to_owned()))
        }
    }

    /// The word as text, which is never blank.
    pub fn raw(&self) -> (raw: &str)
        ensures
            raw@ == self@,
            raw@.len() > 0,
    {
        proof {
            use_type_invariant(self);
        }
        self.0.as_str()
    }
}

impl Word {
    /// The word as text of its own, in contracts.
    pub closed spec fn into_text(self) -> String {
        self.0
    }

    /// The text of a word reads as the word does.
    pub broadcast proof fn lemma_into_text(self)
        ensures
            #[trigger] self.into_text()@ == self@,
    {
    }
}

impl From<Word> for String {
    fn from(word: Word) -> (text: String)
    {
        word.0
    }
}

impl vstd::std_specs::convert::FromSpecImpl<Word> for String {
    open spec fn obeys_from_spec() -> bool {
        true
    }

    open spec fn from_spec(word: Word) -> String {
        word.into_text()
    }
}

impl Clone for Word {
    fn clone(&self) -> (copy: Self)
        ensures
            copy@ == self@,
    {
        proof {
            use_type_invariant(self);
        }
        Word(self.0.clone())
    }
}

/// What a theme is, in contracts.
pub struct ThemeView {
    pub id: Seq<char>,
    pub kind: Seq<char>,
    pub first: Seq<char>,
    pub second: Seq<char>,
}

/// A pair of secret words of one kind. One word goes to the wolves and the
/// other to the citizens.
#[derive(Debug, PartialEq)]
pub struct Theme {
    id: ThemeId,
    kind: ThemeKind,
    first: Word,
    second: Word,
}

impl View for Theme {
    type V = ThemeView;

    closed spec fn view(&self) -> ThemeView {
        ThemeView { id: self.id@, kind: self.kind@, first: self.first@, second: self.second@ }
    }
}

/// The words of `theme` for the wolves and for the citizens, in this order:
/// the first word goes to the wolves exactly where `first_to_wolves` holds.
pub open spec fn word_pair_of(theme: ThemeView, first_to_wolves: bool) -> (Seq<char>, Seq<char>) {
    if first_to_wolves {
        (theme.first, theme.second)
    } else {
        (theme.second, theme.first)
    }
}

impl Theme {
    pub fn new(id: ThemeId, kind: ThemeKind, first: Word, second: Word) -> (theme: Self)
        ensures
            theme@ == (ThemeView { id: id@, kind: kind@, first: first@, second: second@ }),
    {
        Theme { id, kind, first, second }
    }

    pub fn id(&self) -> (id: &ThemeId)
        ensures
            id@ == self@.id,
    {
        &self.id
    }

    pub fn kind(&self) -> (kind: &ThemeKind)
        ensures
            kind@ == self@.kind,
    {
        &self.kind
    }

    pub fn first(&self) -> (first: &Word)
        ensures
            first@ == self@.first,
    {
        &self.first
    }

    pub fn second(&self) -> (second: &Word)
        ensures
            second@ == self@.second,
    {
        &self.second
    }

    /// The word for the wolves and the word for the citizens, once it is
    /// settled which of the two words goes to the wolves.
    pub fn word_pair(&self, first_to_wolves: bool) -> (words: (&Word, &Word))
        ensures
            (words.0@, words.1@) == word_pair_of(self@, first_to_wolves),
    {
        if first_to_wolves {
            (&self.first, &self.second)
        } else {
            (&self.second, &self.first)
        }
    }

    /// The word for the wolves and the word for the citizens, settled by one
    /// random draw: the two words of this theme in one order or the other.
    pub fn choice_word(&self, rng: &mut RandomSource) -> (words: (&Word, &Word))
        ensures
            (words.0@, words.1@) == word_pair_of(self@, true) || (words.0@, words.1@)
                == word_pair_of(self@, false),
            final(rng).step() == old(rng).step(),
    {
        let first_to_wolves = rng.next_bool();
        self.word_pair(first_to_wolves)
    }
}

impl Clone for Theme {
    fn clone(&self) -> (copy: Self)
        ensures
            copy@ == self@,
    {
        Theme {
            id: self.id.clone(),
            kind: self.kind.clone(),
            first: self.first.clone(),
            second: self.second.clone(),
        }
    }
}

} // verus!
