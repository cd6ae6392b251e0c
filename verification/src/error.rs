//! What can go wrong in a store operation.

use vstd::prelude::*;
use vstd::string::StringExecFns;

verus! {

/// The kind of record a lookup was for.
#[derive(Clone, Copy, Debug, PartialEq, Eq, Structural)]
pub enum Entity {
    User,
    Project,
    Video,
    Annotation,
}

/// The broad classes of failure. Each class has its own message prefix, so a
/// caller that only sees the message can still tell them apart.
#[derive(Clone, Copy, Debug, PartialEq, Eq, Structural)]
pub enum ErrorKind {
    NotFound,
    Duplicate,
    InvalidCredentials,
    AccountLocked,
    AccountInactive,
    InvalidInput,
    StorageFailure,
}

/// Why an operation was refused. An operation that returns an error has left
/// the store exactly as it found it, with one exception: a login with a wrong
/// password is counted.
#[derive(Clone, Copy, Debug, PartialEq, Eq, Structural)]
pub enum StoreError {
    /// A referenced record does not exist.
    NotFound(Entity),
    /// The username is already taken.
    DuplicateUsername,
    /// The email address is already taken.
    DuplicateEmail,
    /// The password is shorter than the policy allows.
    WeakPassword,
    /// Unknown user or wrong password.
    InvalidCredentials,
    /// The account is locked until its lock expires.
    AccountLocked,
    /// The account has been deactivated.
    AccountInactive,
    /// A temporal annotation whose end does not lie after its start.
    InvalidRange,
    /// A bounding box without positive width and height.
    InvalidGeometry,
    /// An annotation kind other than the two the store knows.
    UnknownAnnotationKind,
    /// The store could not carry out the operation: an identifier or counter
    /// is exhausted, a credential could not be hashed, or stored data is
    /// unreadable.
    StorageFailure,
}

impl StoreError {
    /// The class this error belongs to.
    pub open spec fn spec_kind(self) -> ErrorKind {
        match self {
            StoreError::NotFound(_) => ErrorKind::NotFound,
            StoreError::DuplicateUsername => ErrorKind::Duplicate,
            StoreError::DuplicateEmail => ErrorKind::Duplicate,
            StoreError::WeakPassword => ErrorKind::InvalidInput,
            StoreError::InvalidCredentials => ErrorKind::InvalidCredentials,
            StoreError::AccountLocked => ErrorKind::AccountLocked,
            StoreError::AccountInactive => ErrorKind::AccountInactive,
            StoreError::InvalidRange => ErrorKind::InvalidInput,
            StoreError::InvalidGeometry => ErrorKind::InvalidInput,
            StoreError::UnknownAnnotationKind => ErrorKind::InvalidInput,
            StoreError::StorageFailure => ErrorKind::StorageFailure,
        }
    }

    /// The message shown for this error.
    pub open spec fn spec_message(self) -> Seq<char> {
        match self {
            StoreError::NotFound(Entity::User) => "not found: user"@,
            StoreError::NotFound(Entity::Project) => "not found: project"@,
            StoreError::NotFound(Entity::Video) => "not found: video"@,
            StoreError::NotFound(Entity::Annotation) => "not found: annotation"@,
            StoreError::DuplicateUsername => "duplicate: username already exists"@,
            StoreError::DuplicateEmail => "duplicate: email already exists"@,
            StoreError::WeakPassword => "invalid input: password is too short"@,
            StoreError::InvalidCredentials => "credentials: invalid username or password"@,
            StoreError::AccountLocked => "locked: account is temporarily locked"@,
            StoreError::AccountInactive => "inactive: account is deactivated"@,
            StoreError::InvalidRange => "invalid input: annotation must end after it starts"@,
            StoreError::InvalidGeometry => "invalid input: box width and height must be positive"@,
            StoreError::UnknownAnnotationKind => "invalid input: unknown annotation kind"@,
            StoreError::StorageFailure => "storage: operation could not be completed"@,
        }
    }

    /// The class this error belongs to.
    pub fn kind(&self) -> (r: ErrorKind)
        ensures
            r == self.spec_kind(),
    {
        match self {
            StoreError::NotFound(_) => ErrorKind::NotFound,
            StoreError::DuplicateUsername => ErrorKind::Duplicate,
            StoreError::DuplicateEmail => ErrorKind::Duplicate,
            StoreError::WeakPassword => ErrorKind::InvalidInput,
            StoreError::InvalidCredentials => ErrorKind::InvalidCredentials,
            StoreError::AccountLocked => ErrorKind::AccountLocked,
            StoreError::AccountInactive => ErrorKind::AccountInactive,
            StoreError::InvalidRange => ErrorKind::InvalidInput,
            StoreError::InvalidGeometry => ErrorKind::InvalidInput,
            StoreError::UnknownAnnotationKind => ErrorKind::InvalidInput,
            StoreError::StorageFailure => ErrorKind::StorageFailure,
        }
    }

    /// The single descriptive message for this error.
    pub fn message(&self) -> (r: String)
        ensures
            r@ == self.spec_message(),
    {
        let text: &str = match self {
            StoreError::NotFound(Entity::User) => "not found: user",
            StoreError::NotFound(Entity::Project) => "not found: project",
            StoreError::NotFound(Entity::Video) => "not found: video",
            StoreError::NotFound(Entity::Annotation) => "not found: annotation",
            StoreError::DuplicateUsername => "duplicate: username already exists",
            StoreError::DuplicateEmail => "duplicate: email already exists",
            StoreError::WeakPassword => "invalid input: password is too short",
            StoreError::InvalidCredentials => "credentials: invalid username or password",
            StoreError::AccountLocked => "locked: account is temporarily locked",
            StoreError::AccountInactive => "inactive: account is deactivated",
            StoreError::InvalidRange => "invalid input: annotation must end after it starts",
            StoreError::InvalidGeometry => "invalid input: box width and height must be positive",
            StoreError::UnknownAnnotationKind => "invalid input: unknown annotation kind",
            StoreError::StorageFailure => "storage: operation could not be completed",
        };
        String::from_str(text)
    }
}

/// No two errors share a message, so the message alone tells which error
/// occurred, and errors of different kinds never read the same.
pub proof fn messages_are_distinct(a: StoreError, b: StoreError)
    requires
        a != b,
    ensures
        a.spec_message() != b.spec_message(),
        a.spec_kind() != b.spec_kind() ==> a.spec_message() != b.spec_message(),
{
    reveal_strlit("not found: user");
    reveal_strlit("not found: project");
    reveal_strlit("not found: video");
    reveal_strlit("not found: annotation");
    reveal_strlit("duplicate: username already exists");
    reveal_strlit("duplicate: email already exists");
    reveal_strlit("invalid input: password is too short");
    reveal_strlit("credentials: invalid username or password");
    reveal_strlit("locked: account is temporarily locked");
    reveal_strlit("inactive: account is deactivated");
    reveal_strlit("invalid input: annotation must end after it starts");
    reveal_strlit("invalid input: box width and height must be positive");
    reveal_strlit("invalid input: unknown annotation kind");
    reveal_strlit("storage: operation could not be completed");
    let x = a.spec_message();
    let y = b.spec_message();
    if x == y {
        assert(x.len() == y.len());
        assert(x[0] == y[0]);
        assert(x[2] == y[2]);
        assert(x[11] == y[11]);
        assert(x[15] == y[15]);
    }
}

} // verus!
