//! Registration, login and password changes.
//!
//! Hashing and checking passwords is the work of `bcrypt`. Each operation
//! here comes in two layers: one that asks `bcrypt`, and one that takes the
//! answer as an argument and decides what happens to the store.

use vstd::prelude::*;
use vstd::string::StringExecFns;
use crate::database::{Config, Database, DatabaseView};
use crate::error::{Entity, StoreError};
use crate::invariants::{has_user, lemma_users_kept_push, lemma_users_kept_update};
use crate::lookup::{email_taken, find_email, find_user, find_username, username_taken};
use crate::models::{ChangePasswordRequest, LoginRequest, RegisterRequest, User, UserPublic};
use crate::password::{bcrypt_verify, check_password, check_weak, hash_for_storage, is_weak};

verus! {

/// Why a registration is refused, if it is: the password is too short, the
/// username or the email address is taken, or the identifiers are used up.
/// The first reason that applies, in this order, is the one reported.
pub open spec fn registration_refusal(db: DatabaseView, req: RegisterRequest) -> Option<
    StoreError,
> {
    if is_weak(req.password@) {
        Some(StoreError::WeakPassword)
    } else if username_taken(db.users, req.username@) {
        Some(StoreError::DuplicateUsername)
    } else if email_taken(db.users, req.email@) {
        Some(StoreError::DuplicateEmail)
    } else if db.next_user_id >= i64::MAX {
        Some(StoreError::StorageFailure)
    } else {
        None
    }
}

/// The role a registration asks for; an annotator when it names none.
pub open spec fn requested_role(req: RegisterRequest) -> Seq<char> {
    match req.role {
        Some(role) => role@,
        None => "annotator"@,
    }
}

/// Whether `user` is the row that registering `req` at time `now` under
/// identifier `id` creates, with `hash` as its credential.
pub open spec fn is_registered_row(
    user: User,
    req: RegisterRequest,
    hash: Seq<char>,
    id: i64,
    now: i64,
) -> bool {
    &&& user.user_id == id
    &&& user.username@ == req.username@
    &&& user.email@ == req.email@
    &&& user.password_hash@ == hash
    &&& user.role@ == requested_role(req)
    &&& user.full_name@ == req.full_name@
    &&& user.is_active
    &&& user.created_at == now
    &&& user.last_active == Some(now)
    &&& user.failed_login_attempts == 0
    &&& user.locked_until is None
    &&& user.password_changed_at == now
    &&& !user.must_change_password
}

/// What a successful registration does to the store: one row more, under
/// the next identifier.
pub open spec fn registered(
    before: DatabaseView,
    after: DatabaseView,
    req: RegisterRequest,
    hash: Seq<char>,
    now: i64,
) -> bool {
    &&& after.users.len() == before.users.len() + 1
    &&& is_registered_row(after.users.last(), req, hash, before.next_user_id, now)
    &&& after == (DatabaseView {
        users: before.users.push(after.users.last()),
        next_user_id: (before.next_user_id + 1) as i64,
        ..before
    })
}

/// Whether the account is locked at time `now`.
pub open spec fn is_locked(user: User, now: i64) -> bool {
    user.locked_until matches Some(until) && now < until
}

/// The moment a lock set at `now` ends: `seconds` later, or at the last
/// (or first) representable second where the sum lies beyond it.
pub open spec fn lock_expiry(now: i64, seconds: i64) -> i64 {
    if now + seconds > i64::MAX {
        i64::MAX
    } else if now + seconds < i64::MIN {
        i64::MIN
    } else {
        (now + seconds) as i64
    }
}

/// The failure counter after one more failure. It stops at the largest
/// value it can hold.
pub open spec fn one_more(failures: i64) -> i64 {
    if failures < i64::MAX {
        (failures + 1) as i64
    } else {
        failures
    }
}

/// The row of a user after a login that succeeded at `now`.
pub open spec fn after_success(user: User, now: i64) -> User {
    User { failed_login_attempts: 0, locked_until: None, last_active: Some(now), ..user }
}

/// The row of a user after a wrong password at `now`: one failure more, and
/// a lock once the threshold is reached.
pub open spec fn after_failure(user: User, now: i64, config: Config) -> User {
    let failures = one_more(user.failed_login_attempts);
    User {
        failed_login_attempts: failures,
        locked_until: if failures >= config.lockout_threshold {
            Some(lock_expiry(now, config.lockout_seconds))
        } else {
            user.locked_until
        },
        ..user
    }
}

/// How a login attempt on an existing account ends. `verdict` is what the
/// password check answered. An inactive account is refused first, then a
/// locked one; only then does the password count.
pub open spec fn login_refusal(user: User, verdict: Option<bool>, now: i64) -> Option<StoreError> {
    if !user.is_active {
        Some(StoreError::AccountInactive)
    } else if is_locked(user, now) {
        Some(StoreError::AccountLocked)
    } else {
        match verdict {
            Some(true) => None,
            Some(false) => Some(StoreError::InvalidCredentials),
            None => Some(StoreError::StorageFailure),
        }
    }
}

/// The row of a user after a login attempt. Only an attempt whose password
/// is looked at changes the row.
pub open spec fn login_row(user: User, verdict: Option<bool>, now: i64, config: Config) -> User {
    if !user.is_active || is_locked(user, now) {
        user
    } else {
        match verdict {
            Some(true) => after_success(user, now),
            Some(false) => after_failure(user, now, config),
            None => user,
        }
    }
}

/// What a login attempt on the account at position `at` does to the store
/// and what it answers.
pub open spec fn login_outcome(
    before: DatabaseView,
    after: DatabaseView,
    r: Result<UserPublic, StoreError>,
    at: int,
    verdict: Option<bool>,
    now: i64,
) -> bool {
    let user = before.users[at];
    &&& after == (DatabaseView {
        users: before.users.update(at, login_row(user, verdict, now, before.config)),
        ..before
    })
    &&& match login_refusal(user, verdict, now) {
        Some(e) => r == Err::<UserPublic, StoreError>(e),
        None => r == Ok::<UserPublic, StoreError>(UserPublic::of(after_success(user, now))),
    }
}

/// Why a password change is refused, if it is. `verdict` is what the check
/// of the current password answered, `hashed` whether the new password could
/// be hashed.
pub open spec fn password_change_refusal(
    db: DatabaseView,
    user_id: i64,
    verdict: Option<bool>,
    new_password: Seq<char>,
    hashed: bool,
) -> Option<StoreError> {
    if !has_user(db.users, user_id) {
        Some(StoreError::NotFound(Entity::User))
    } else {
        match verdict {
            None => Some(StoreError::StorageFailure),
            Some(false) => Some(StoreError::InvalidCredentials),
            Some(true) => if is_weak(new_password) {
                Some(StoreError::WeakPassword)
            } else if !hashed {
                Some(StoreError::StorageFailure)
            } else {
                None
            },
        }
    }
}

/// The row of a user after a password change at `now`.
pub open spec fn with_password(user: User, hash: String, now: i64) -> User {
    User { password_hash: hash, password_changed_at: now, must_change_password: false, ..user }
}

/// Why a registration is refused, if it is.
pub fn check_registration(db: &Database, req: &RegisterRequest) -> (r: Option<StoreError>)
    ensures
        r == registration_refusal(db@, *req),
{
    if check_weak(req.password.as_str()) {
        Some(StoreError::WeakPassword)
    } else if find_username(db.users(), &req.username).is_some() {
        Some(StoreError::DuplicateUsername)
    } else if find_email(db.users(), &req.email).is_some() {
        Some(StoreError::DuplicateEmail)
    } else if db.next_user_id() == i64::MAX {
        Some(StoreError::StorageFailure)
    } else {
        None
    }
}

fn add_registered(db: &mut Database, req: RegisterRequest, password_hash: String, now: i64) -> (r:
    UserPublic)
    requires
        old(db)@.wf(),
        registration_refusal(old(db)@, req) is None,
    ensures
        final(db)@.wf(),
        registered(old(db)@, final(db)@, req, password_hash@, now),
        r == UserPublic::of(final(db)@.users.last()),
{
    let role = match req.role {
        Some(role) => role,
        None => String::from_str("annotator"),
    };
    let user = User {
        user_id: db.next_user_id(),
        username: req.username,
        email: req.email,
        password_hash,
        role,
        full_name: req.full_name,
        is_active: true,
        created_at: now,
        last_active: Some(now),
        failed_login_attempts: 0,
        locked_until: None,
        password_changed_at: now,
        must_change_password: false,
    };
    let public = UserPublic::of_row(&user);
    proof {
        lemma_users_kept_push(db@.users, user);
    }
    db.append_user(user);
    public
}

/// Stores a new user whose password has already been hashed.
///
/// Succeeds exactly when [`registration_refusal`] finds no reason against
/// it; otherwise it reports that reason and leaves the store as it was.
pub fn insert_user(db: &mut Database, req: RegisterRequest, password_hash: String, now: i64) -> (r:
    Result<UserPublic, StoreError>)
    requires
        old(db)@.wf(),
    ensures
        final(db)@.wf(),
        match registration_refusal(old(db)@, req) {
            Some(e) => r == Err::<UserPublic, StoreError>(e) && final(db)@ == old(db)@,
            None => r matches Ok(p) && p == UserPublic::of(final(db)@.users.last()) && registered(
                old(db)@,
                final(db)@,
                req,
                password_hash@,
                now,
            ),
        },
{
    match check_registration(db, &req) {
        Some(e) => Err(e),
        None => Ok(add_registered(db, req, password_hash, now)),
    }
}

/// Registers a new user.
///
/// A request that [`registration_refusal`] refuses fails with that reason.
/// Any other request succeeds unless the password cannot be hashed, which is
/// reported as a storage failure. A failed registration leaves the store as
/// it was. After a successful one the store holds one more user, whose
/// stored credential is a hash that the password of the request verifies
/// against.
pub fn register(db: &mut Database, req: RegisterRequest, now: i64) -> (r: Result<
    UserPublic,
    StoreError,
>)
    requires
        old(db)@.wf(),
    ensures
        final(db)@.wf(),
        match r {
            Ok(p) => {
                &&& registration_refusal(old(db)@, req) is None
                &&& p == UserPublic::of(final(db)@.users.last())
                &&& registered(
                    old(db)@,
                    final(db)@,
                    req,
                    final(db)@.users.last().password_hash@,
                    now,
                )
                &&& bcrypt_verify(req.password@, final(db)@.users.last().password_hash@) == Some(
                    true,
                )
            },
            Err(e) => {
                &&& final(db)@ == old(db)@
                &&& e == match registration_refusal(old(db)@, req) {
                    Some(reason) => reason,
                    None => StoreError::StorageFailure,
                }
            },
        },
{
    match check_registration(db, &req) {
        Some(e) => Err(e),
        None => match hash_for_storage(req.password.as_str(), db.config().hash_cost) {
            Some(hash) => Ok(add_registered(db, req, hash, now)),
            None => Err(StoreError::StorageFailure),
        },
    }
}

/// The moment a lock set at `now` ends.
pub fn compute_lock_expiry(now: i64, seconds: i64) -> (r: i64)
    ensures
        r == lock_expiry(now, seconds),
{
    match now.checked_add(seconds) {
        Some(t) => t,
        None => if seconds > 0 {
            i64::MAX
        } else {
            i64::MIN
        },
    }
}

/// Carries out a login attempt on the account `user_id`, given what the
/// password check answered.
///
/// An unknown account is refused as invalid credentials and nothing
/// changes. Otherwise the row of the account becomes [`login_row`] of what
/// it was, and the answer is the refusal that [`login_refusal`] finds, or
/// the public view of the account as it is after the login.
pub fn record_login(db: &mut Database, user_id: i64, verdict: Option<bool>, now: i64) -> (r:
    Result<UserPublic, StoreError>)
    requires
        old(db)@.wf(),
    ensures
        final(db)@.wf(),
        !has_user(old(db)@.users, user_id) ==> final(db)@ == old(db)@ && r == Err::<
            UserPublic,
            StoreError,
        >(StoreError::InvalidCredentials),
        forall|at: int|
            0 <= at < old(db)@.users.len() && (#[trigger] old(db)@.users[at]).user_id == user_id
                ==> login_outcome(old(db)@, final(db)@, r, at, verdict, now),
{
    let at: usize = match find_user(db.users(), user_id) {
        Some(at) => at,
        None => {
            return Err(StoreError::InvalidCredentials);
        },
    };
    let r = attempt_login(db, at, verdict, now);
    proof {
        lemma_position_of_user(old(db)@, at as int);
    }
    r
}

/// In a well-formed store an identifier is found at one position only.
pub proof fn lemma_position_of_user(db: DatabaseView, at: int)
    requires
        db.wf(),
        0 <= at < db.users.len(),
    ensures
        forall|k: int|
            0 <= k < db.users.len() && (#[trigger] db.users[k]).user_id == db.users[at].user_id
                ==> k == at,
        forall|k: int|
            0 <= k < db.users.len() && (#[trigger] db.users[k]).username@
                == db.users[at].username@ ==> k == at,
{
    assert forall|k: int|
        0 <= k < db.users.len() && (#[trigger] db.users[k]).user_id
            == db.users[at].user_id implies k == at by {
        if k < at {
            assert(db.users[k].user_id < db.users[at].user_id);
        } else if at < k {
            assert(db.users[at].user_id < db.users[k].user_id);
        }
    }
    assert forall|k: int|
        0 <= k < db.users.len() && (#[trigger] db.users[k]).username@
            == db.users[at].username@ implies k == at by {
        if k < at {
            assert(db.users[k].username@ != db.users[at].username@);
        } else if at < k {
            assert(db.users[at].username@ != db.users[k].username@);
        }
    }
}

fn attempt_login(db: &mut Database, at: usize, verdict: Option<bool>, now: i64) -> (r: Result<
    UserPublic,
    StoreError,
>)
    requires
        old(db)@.wf(),
        at < old(db)@.users.len(),
    ensures
        final(db)@.wf(),
        login_outcome(old(db)@, final(db)@, r, at as int, verdict, now),
{
    let config = db.config();
    let user: &User = &db.users()[at];
    let locked: bool = match user.locked_until {
        Some(until) => now < until,
        None => false,
    };
    if !user.is_active {
        assert(db@.users.update(at as int, db@.users[at as int]) =~= db@.users);
        return Err(StoreError::AccountInactive);
    }
    if locked {
        assert(db@.users.update(at as int, db@.users[at as int]) =~= db@.users);
        return Err(StoreError::AccountLocked);
    }
    match verdict {
        None => {
            assert(db@.users.update(at as int, db@.users[at as int]) =~= db@.users);
            Err(StoreError::StorageFailure)
        },
        Some(true) => {
            let mut row = user.clone();
            row.failed_login_attempts = 0;
            row.locked_until = None;
            row.last_active = Some(now);
            let public = UserPublic::of_row(&row);
            proof {
                lemma_row_change_keeps_wf(db@, at as int, row);
            }
            db.replace_user(at, row);
            Ok(public)
        },
        Some(false) => {
            let mut row = user.clone();
            let failures: i64 = if row.failed_login_attempts < i64::MAX {
                row.failed_login_attempts + 1
            } else {
                row.failed_login_attempts
            };
            row.failed_login_attempts = failures;
            if failures >= config.lockout_threshold {
                row.locked_until = Some(compute_lock_expiry(now, config.lockout_seconds));
            }
            proof {
                lemma_row_change_keeps_wf(db@, at as int, row);
            }
            db.replace_user(at, row);
            Err(StoreError::InvalidCredentials)
        },
    }
}

/// Replacing a user by a row with the same identifier, username and email
/// address, and a counter that is not negative, keeps the store well-formed.
pub proof fn lemma_row_change_keeps_wf(db: DatabaseView, at: int, row: User)
    requires
        db.wf(),
        0 <= at < db.users.len(),
        row.user_id == db.users[at].user_id,
        row.username@ == db.users[at].username@,
        row.email@ == db.users[at].email@,
        row.failed_login_attempts >= 0,
    ensures
        (DatabaseView { users: db.users.update(at, row), ..db }).wf(),
{
    lemma_users_kept_update(db.users, at, row);
}

/// Logs a user in by name and password.
///
/// An unknown username is refused as invalid credentials and nothing
/// changes. For a known one the stored hash is checked with `bcrypt`, and
/// the attempt ends as [`record_login`] says for the answer of that check.
pub fn login(db: &mut Database, req: &LoginRequest, now: i64) -> (r: Result<
    UserPublic,
    StoreError,
>)
    requires
        old(db)@.wf(),
    ensures
        final(db)@.wf(),
        !username_taken(old(db)@.users, req.username@) ==> final(db)@ == old(db)@ && r == Err::<
            UserPublic,
            StoreError,
        >(StoreError::InvalidCredentials),
        forall|at: int|
            0 <= at < old(db)@.users.len() && (#[trigger] old(db)@.users[at]).username@
                == req.username@ ==> login_outcome(
                old(db)@,
                final(db)@,
                r,
                at,
                bcrypt_verify(req.password@, old(db)@.users[at].password_hash@),
                now,
            ),
{
    let at: usize = match find_username(db.users(), &req.username) {
        Some(at) => at,
        None => {
            return Err(StoreError::InvalidCredentials);
        },
    };
    proof {
        lemma_position_of_user(db@, at as int);
    }
    let user: &User = &db.users()[at];
    let verdict = check_password(req.password.as_str(), user.password_hash.as_str());
    attempt_login(db, at, verdict, now)
}

/// Carries out a password change for `user_id`, given what the check of the
/// current password answered and the hash of the new password, if it could
/// be computed.
///
/// Succeeds exactly when [`password_change_refusal`] finds no reason
/// against it; the row then becomes [`with_password`] of what it was.
/// Otherwise it reports that reason and leaves the store as it was.
pub fn store_password(
    db: &mut Database,
    user_id: i64,
    verdict: Option<bool>,
    new_password: &String,
    new_hash: Option<String>,
    now: i64,
) -> (r: Result<(), StoreError>)
    requires
        old(db)@.wf(),
    ensures
        final(db)@.wf(),
        match password_change_refusal(
            old(db)@,
            user_id,
            verdict,
            new_password@,
            new_hash is Some,
        ) {
            Some(e) => r == Err::<(), StoreError>(e) && final(db)@ == old(db)@,
            None => r is Ok && (forall|at: int|
                0 <= at < old(db)@.users.len() && (#[trigger] old(db)@.users[at]).user_id
                    == user_id ==> final(db)@ == (DatabaseView {
                    users: old(db)@.users.update(
                        at,
                        with_password(old(db)@.users[at], new_hash->Some_0, now),
                    ),
                    ..old(db)@
                })),
        },
{
    let at: usize = match find_user(db.users(), user_id) {
        Some(at) => at,
        None => {
            return Err(StoreError::NotFound(Entity::User));
        },
    };
    match verdict {
        None => {
            return Err(StoreError::StorageFailure);
        },
        Some(false) => {
            return Err(StoreError::InvalidCredentials);
        },
        Some(true) => {},
    }
    if check_weak(new_password.as_str()) {
        return Err(StoreError::WeakPassword);
    }
    let hash = match new_hash {
        Some(hash) => hash,
        None => {
            return Err(StoreError::StorageFailure);
        },
    };
    let mut row = db.users()[at].clone();
    row.password_hash = hash;
    row.password_changed_at = now;
    row.must_change_password = false;
    proof {
        lemma_row_change_keeps_wf(db@, at as int, row);
        lemma_position_of_user(db@, at as int);
    }
    db.replace_user(at, row);
    Ok(())
}

/// Changes the password of `user_id`.
///
/// The current password is checked with `bcrypt` against the stored hash,
/// and the change ends as [`store_password`] says for the answer of that
/// check. A change that is refused leaves the store as it was. After a
/// successful one the stored credential is a hash that the new password
/// verifies against; only hashing can make a change fail that
/// [`password_change_refusal`] would let pass.
pub fn change_password(db: &mut Database, user_id: i64, req: &ChangePasswordRequest, now: i64) -> (r:
    Result<(), StoreError>)
    requires
        old(db)@.wf(),
    ensures
        final(db)@.wf(),
        !has_user(old(db)@.users, user_id) ==> final(db)@ == old(db)@ && r == Err::<
            (),
            StoreError,
        >(StoreError::NotFound(Entity::User)),
        forall|at: int|
            0 <= at < old(db)@.users.len() && (#[trigger] old(db)@.users[at]).user_id == user_id
                ==> {
                let verdict = bcrypt_verify(
                    req.current_password@,
                    old(db)@.users[at].password_hash@,
                );
                match r {
                    Ok(()) => {
                        &&& password_change_refusal(
                            old(db)@,
                            user_id,
                            verdict,
                            req.new_password@,
                            true,
                        ) is None
                        &&& bcrypt_verify(req.new_password@, final(db)@.users[at].password_hash@)
                            == Some(true)
                        &&& final(db)@ == (DatabaseView {
                            users: old(db)@.users.update(
                                at,
                                with_password(
                                    old(db)@.users[at],
                                    final(db)@.users[at].password_hash,
                                    now,
                                ),
                            ),
                            ..old(db)@
                        })
                    },
                    Err(e) => {
                        &&& final(db)@ == old(db)@
                        &&& e == match password_change_refusal(
                            old(db)@,
                            user_id,
                            verdict,
                            req.new_password@,
                            true,
                        ) {
                            Some(reason) => reason,
                            None => StoreError::StorageFailure,
                        }
                    },
                }
            },
{
    let at: usize = match find_user(db.users(), user_id) {
        Some(at) => at,
        None => {
            return Err(StoreError::NotFound(Entity::User));
        },
    };
    proof {
        lemma_position_of_user(db@, at as int);
    }
    let verdict = check_password(
        req.current_password.as_str(),
        db.users()[at].password_hash.as_str(),
    );
    let new_hash = if verdict == Some(true) && !check_weak(req.new_password.as_str()) {
        hash_for_storage(req.new_password.as_str(), db.config().hash_cost)
    } else {
        None
    };
    store_password(db, user_id, verdict, &req.new_password, new_hash, now)
}

/// The public view of the user a session belongs to.
pub fn get_current_user(db: &Database, user_id: i64) -> (r: Result<UserPublic, StoreError>)
    requires
        db@.wf(),
    ensures
        !has_user(db@.users, user_id) ==> r == Err::<UserPublic, StoreError>(
            StoreError::NotFound(Entity::User),
        ),
        forall|at: int|
            0 <= at < db@.users.len() && (#[trigger] db@.users[at]).user_id == user_id ==> r
                == Ok::<UserPublic, StoreError>(UserPublic::of(db@.users[at])),
{
    match find_user(db.users(), user_id) {
        Some(at) => {
            proof {
                lemma_position_of_user(db@, at as int);
            }
            Ok(UserPublic::of_row(&db.users()[at]))
        },
        None => Err(StoreError::NotFound(Entity::User)),
    }
}

} // verus!
