//! What holds of every store, whatever operations led to it. Each statement
//! here is proved from the invariant that all operations keep and from the
//! definitions their contracts are written in.

use vstd::prelude::*;
use crate::annotations::{bbox_refusal, box_acceptable, span_acceptable, temporal_refusal};
use crate::auth::{lock_expiry, login_refusal, login_row, registered};
use crate::database::{seeded, Config, DatabaseView};
use crate::error::{ErrorKind, StoreError};
use crate::invariants::lemma_completed_at_most_total;
use crate::models::{
    RegisterRequest,
    SaveBboxAnnotationRequest,
    SaveTemporalAnnotationRequest,
    User,
};

verus! {

/// Preparing a store twice is the same as preparing it once: the second
/// run changes nothing, whenever it happens.
pub proof fn preparing_twice_changes_nothing(
    fresh: DatabaseView,
    once: DatabaseView,
    twice: DatabaseView,
    first_run: i64,
    second_run: i64,
)
    requires
        seeded(fresh, once, first_run),
        seeded(once, twice, second_run),
    ensures
        twice == once,
{
}

/// A store that had no users has, however often it is prepared, exactly one
/// user: the administrator.
pub proof fn prepared_store_has_one_administrator(
    fresh: DatabaseView,
    once: DatabaseView,
    twice: DatabaseView,
    first_run: i64,
    second_run: i64,
)
    requires
        fresh.users.len() == 0,
        seeded(fresh, once, first_run),
        seeded(once, twice, second_run),
    ensures
        twice.users.len() == 1,
        twice.users[0].username@ == "admin"@,
        twice.users[0].role@ == "admin"@,
{
}

/// No two users share a username, an email address or an identifier.
pub proof fn users_are_distinct(db: DatabaseView, i: int, j: int)
    requires
        db.wf(),
        0 <= i < db.users.len(),
        0 <= j < db.users.len(),
        i != j,
    ensures
        db.users[i].username@ != db.users[j].username@,
        db.users[i].email@ != db.users[j].email@,
        db.users[i].user_id != db.users[j].user_id,
{
    if i < j {
        assert(db.users[i].user_id < db.users[j].user_id);
    } else {
        assert(db.users[j].user_id < db.users[i].user_id);
    }
}

/// A registration that went through added a user whose username and email
/// address nobody had before.
pub proof fn registration_adds_a_new_name(
    before: DatabaseView,
    after: DatabaseView,
    req: RegisterRequest,
    hash: Seq<char>,
    now: i64,
    i: int,
)
    requires
        before.wf(),
        after.wf(),
        registered(before, after, req, hash, now),
        0 <= i < before.users.len(),
    ensures
        before.users[i].username@ != req.username@,
        before.users[i].email@ != req.email@,
{
    let last = after.users.len() - 1;
    assert(after.users[i] == before.users[i]);
    assert(after.users[i].username@ != after.users[last].username@);
    assert(after.users[i].email@ != after.users[last].email@);
}

/// Every stored time span ends after it starts and does not end on an
/// earlier frame than it starts on.
pub proof fn stored_spans_are_acceptable(db: DatabaseView, i: int)
    requires
        db.wf(),
        0 <= i < db.temporal.len(),
    ensures
        db.temporal[i].end_time.spec_gt(db.temporal[i].start_time),
        db.temporal[i].end_frame >= db.temporal[i].start_frame,
{
}

/// A span that is not acceptable is refused as invalid input, whatever else
/// is true of the request and of the store.
pub proof fn unacceptable_span_is_refused(
    db: DatabaseView,
    req: SaveTemporalAnnotationRequest,
    user_id: Option<i64>,
)
    requires
        !span_acceptable(req),
    ensures
        temporal_refusal(db, req, user_id) == Some(StoreError::InvalidRange),
        StoreError::InvalidRange.spec_kind() == ErrorKind::InvalidInput,
{
}

/// Every stored bounding box has a positive width and a positive height.
pub proof fn stored_boxes_are_acceptable(db: DatabaseView, i: int)
    requires
        db.wf(),
        0 <= i < db.boxes.len(),
    ensures
        db.boxes[i].width.spec_is_positive(),
        db.boxes[i].height.spec_is_positive(),
{
}

/// A box that is not acceptable is refused as invalid input, whatever else
/// is true of the request and of the store.
pub proof fn unacceptable_box_is_refused(
    db: DatabaseView,
    req: SaveBboxAnnotationRequest,
    user_id: Option<i64>,
)
    requires
        !box_acceptable(req),
    ensures
        bbox_refusal(db, req, user_id) == Some(StoreError::InvalidGeometry),
        StoreError::InvalidGeometry.spec_kind() == ErrorKind::InvalidInput,
{
}

/// The quality threshold of every project is a fraction between zero and
/// one.
pub proof fn quality_thresholds_are_fractions(db: DatabaseView, i: int)
    requires
        db.wf(),
        0 <= i < db.projects.len(),
    ensures
        db.projects[i].quality_threshold.spec_is_fraction(),
{
}

/// A project never counts more completed videos than videos, nor more
/// videos than the store holds.
pub proof fn completed_videos_at_most_total(db: DatabaseView, i: int)
    requires
        db.wf(),
        0 <= i < db.projects.len(),
    ensures
        0 <= db.projects[i].completed_videos <= db.projects[i].total_videos <= db.videos.len(),
{
    lemma_completed_at_most_total(db.videos, db.projects[i].project_id);
}

/// The row of a user after wrong passwords at the given moments, one after
/// the other.
pub open spec fn after_failures(user: User, moments: Seq<i64>, config: Config) -> User
    decreases moments.len(),
{
    if moments.len() == 0 {
        user
    } else {
        login_row(
            after_failures(user, moments.drop_last(), config),
            Some(false),
            moments.last(),
            config,
        )
    }
}

/// Whether each of the attempts at the given moments was a failed login:
/// the password was looked at and found wrong.
pub open spec fn all_failed(user: User, moments: Seq<i64>, config: Config) -> bool
    decreases moments.len(),
{
    moments.len() == 0 || (all_failed(user, moments.drop_last(), config) && login_refusal(
        after_failures(user, moments.drop_last(), config),
        Some(false),
        moments.last(),
    ) == Some(StoreError::InvalidCredentials))
}

/// Failed logins in a row are all counted.
pub proof fn failures_are_counted(user: User, moments: Seq<i64>, config: Config)
    requires
        user.failed_login_attempts >= 0,
        all_failed(user, moments, config),
        moments.len() <= i64::MAX,
    ensures
        after_failures(user, moments, config).failed_login_attempts >= moments.len(),
        after_failures(user, moments, config).is_active == user.is_active,
        after_failures(user, moments, config).user_id == user.user_id,
    decreases moments.len(),
{
    if moments.len() > 0 {
        failures_are_counted(user, moments.drop_last(), config);
    }
}

/// As many failed logins in a row as the threshold says lock the account.
/// Until the lock ends, every attempt is refused as locked, with the right
/// password as with a wrong one, and leaves the row as it is. From the
/// moment the lock ends the right password is accepted again.
pub proof fn failed_logins_lock_the_account(
    user: User,
    moments: Seq<i64>,
    config: Config,
    now: i64,
    verdict: Option<bool>,
)
    requires
        config.valid(),
        user.failed_login_attempts >= 0,
        moments.len() == config.lockout_threshold,
        all_failed(user, moments, config),
    ensures
        ({
            let row = after_failures(user, moments, config);
            let end = lock_expiry(moments.last(), config.lockout_seconds);
            &&& row.locked_until == Some(end)
            &&& now < end ==> login_refusal(row, verdict, now) == Some(StoreError::AccountLocked)
                && login_row(row, verdict, now, config) == row
            &&& now >= end ==> login_refusal(row, Some(true), now) is None
        }),
{
    failures_are_counted(user, moments.drop_last(), config);
    failures_are_counted(user, moments, config);
}

} // verus!
