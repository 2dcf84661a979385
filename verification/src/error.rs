use vstd::prelude::*;

verus! {

/// Why a storage connection or transaction failed, with the text of the
/// underlying failure.
#[derive(Debug)]
pub enum DatabaseError {
    Open(String),
    TransactionBegin(String),
    TransactionRollback(String),
    TransactionCommit(String),
}

impl DatabaseError {
    /// The text of the underlying failure.
    pub open spec fn text(self) -> Seq<char> {
        match self {
            DatabaseError::Open(text) => text@,
            DatabaseError::TransactionBegin(text) => text@,
            DatabaseError::TransactionRollback(text) => text@,
            DatabaseError::TransactionCommit(text) => text@,
        }
    }

    /// Whether both failures happened at the same step, whatever their texts.
    pub open spec fn same_step(self, other: Self) -> bool {
        match (self, other) {
            (DatabaseError::Open(_), DatabaseError::Open(_)) => true,
            (DatabaseError::TransactionBegin(_), DatabaseError::TransactionBegin(_)) => true,
            (DatabaseError::TransactionRollback(_), DatabaseError::TransactionRollback(_)) => true,
            (DatabaseError::TransactionCommit(_), DatabaseError::TransactionCommit(_)) => true,
            _ => false,
        }
    }

    /// The text of the underlying failure, which is also how the error reads.
    pub fn message(&self) -> (text: &String)
        ensures
            text@ == self.text(),
    {
        match self {
            DatabaseError::Open(text) => text,
            DatabaseError::TransactionBegin(text) => text,
            DatabaseError::TransactionRollback(text) => text,
            DatabaseError::TransactionCommit(text) => text,
        }
    }
}

impl PartialEq for DatabaseError {
    /// Two database errors are equal when they name the same step.
    fn eq(&self, other: &Self) -> (same: bool)
    {
        match (self, other) {
            (DatabaseError::Open(_), DatabaseError::Open(_)) => true,
            (DatabaseError::TransactionBegin(_), DatabaseError::TransactionBegin(_)) => true,
            (DatabaseError::TransactionRollback(_), DatabaseError::TransactionRollback(_)) => true,
            (DatabaseError::TransactionCommit(_), DatabaseError::TransactionCommit(_)) => true,
            _ => false,
        }
    }
}

impl vstd::std_specs::cmp::PartialEqSpecImpl for DatabaseError {
    open spec fn obeys_eq_spec() -> bool {
        true
    }

    open spec fn eq_spec(&self, other: &Self) -> bool {
        self.same_step(*other)
    }
}

/// What a repository reports when it fails.
#[derive(Clone, Copy, Debug, PartialEq, Eq, Structural)]
pub enum RepositoryErrorKind {
    /// No entity has the identifier that was looked up.
    NotFound,
    /// The storage itself failed.
    Fail,
}

/// A failure of a repository: its kind, a message, and the database error
/// that caused it, if one did.
#[derive(Debug, PartialEq)]
pub struct RepositoryError {
    pub kind: RepositoryErrorKind,
    pub message: String,
    pub source: Option<DatabaseError>,
}

impl RepositoryError {
    /// A repository error without a cause.
    pub fn new(kind: RepositoryErrorKind, message: &str) -> (error: Self)
        ensures
            error.kind == kind,
            error.message@ == message@,
            error.source is None,
    {
        RepositoryError { kind, message: message.to_owned(), source: None }
    }

    /// A repository error that keeps the database error that caused it.
    pub fn new_with_source(kind: RepositoryErrorKind, message: &str, source: DatabaseError) -> (error:
        Self)
        ensures
            error.kind == kind,
            error.message@ == message@,
            error.source == Some(source),
    {
        RepositoryError { kind, message: message.to_owned(), source: Some(source) }
    }

    pub fn kind(&self) -> (kind: &RepositoryErrorKind)
        ensures
            *kind == self.kind,
    {
        &self.kind
    }

    pub fn message(&self) -> (message: &String)
        ensures
            message@ == self.message@,
    {
        &self.message
    }
}

/// Turns a database error into the repository error that reports it: a
/// failure of the storage that reads as the database error does and keeps it
/// as its cause.
pub fn to_repository_error(db_error: DatabaseError) -> (error: RepositoryError)
    ensures
        error.kind == RepositoryErrorKind::Fail,
        error.message@ == db_error.text(),
        error.source == Some(db_error),
{
    let message = db_error.message().clone();
    RepositoryError { kind: RepositoryErrorKind::Fail, message, source: Some(db_error) }
}

/// What an operation of the domain reports when it fails.
#[derive(Clone, Copy, Debug, PartialEq, Eq, Structural)]
pub enum DomainErrorKind {
    /// A value or a request breaks a rule of the domain.
    InvalidInput,
    /// A collaborator failed, or the operation does not apply to the state.
    Fail,
    /// No aggregate has the identifier that was looked up.
    Notfound,
}

/// A failure of the domain: its kind, a message, and the repository error
/// that caused it, if one did.
#[derive(Debug, PartialEq)]
pub struct DomainError {
    pub kind: DomainErrorKind,
    pub message: String,
    pub source: Option<RepositoryError>,
}

/// The domain's result type.
pub type DomainResult<T> = Result<T, DomainError>;

/// A repository's result type.
pub type RepositoryResult<T> = Result<T, RepositoryError>;

impl DomainError {
    /// Whether this error has the given kind and message and no cause.
    pub open spec fn is(self, kind: DomainErrorKind, message: Seq<char>) -> bool {
        &&& self.kind == kind
        &&& self.message@ == message
        &&& self.source is None
    }

    /// A domain error without a cause.
    pub fn new(kind: DomainErrorKind, message: &str) -> (error: Self)
        ensures
            error.is(kind, message@),
    {
        DomainError { kind, message: message.to_owned(), source: None }
    }

    /// A domain error that keeps the repository error that caused it.
    pub fn new_with_source(kind: DomainErrorKind, message: &str, source: RepositoryError) -> (error:
        Self)
        ensures
            error.kind == kind,
            error.message@ == message@,
            error.source == Some(source),
    {
        DomainError { kind, message: message.to_owned(), source: Some(source) }
    }

    pub fn kind(&self) -> (kind: &DomainErrorKind)
        ensures
            *kind == self.kind,
    {
        &self.kind
    }

    pub fn message(&self) -> (message: &String)
        ensures
            message@ == self.message@,
    {
        &self.message
    }
}

} // verus!
