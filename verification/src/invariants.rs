//! What must hold of the five tables together.
//!
//! Every table is kept in the order in which its rows were inserted, so
//! identifiers ascend along it. Rows refer to each other by identifier; a
//! reference always finds its target.

use vstd::prelude::*;
use crate::models::{BoundingBoxAnnotation, Project, TemporalAnnotation, User, Video};

verus! {

/// Some user has this identifier.
pub open spec fn has_user(users: Seq<User>, id: i64) -> bool {
    exists|i: int| 0 <= i < users.len() && (#[trigger] users[i]).user_id == id
}

/// Some project has this identifier.
pub open spec fn has_project(projects: Seq<Project>, id: i64) -> bool {
    exists|i: int| 0 <= i < projects.len() && (#[trigger] projects[i]).project_id == id
}

/// Some video has this identifier.
pub open spec fn has_video(videos: Seq<Video>, id: i64) -> bool {
    exists|i: int| 0 <= i < videos.len() && (#[trigger] videos[i]).video_id == id
}

/// An optional reference to a user finds its target.
pub open spec fn user_ref_ok(users: Seq<User>, id: Option<i64>) -> bool {
    id matches Some(u) ==> has_user(users, u)
}

/// How many of the videos belong to the project.
pub open spec fn video_count(videos: Seq<Video>, project_id: i64) -> nat
    decreases videos.len(),
{
    if videos.len() == 0 {
        0
    } else {
        video_count(videos.drop_last(), project_id) + (if videos.last().project_id == Some(
            project_id,
        ) {
            1nat
        } else {
            0nat
        })
    }
}

/// How many of the videos belong to the project and are completed.
pub open spec fn completed_count(videos: Seq<Video>, project_id: i64) -> nat
    decreases videos.len(),
{
    if videos.len() == 0 {
        0
    } else {
        completed_count(videos.drop_last(), project_id) + (if videos.last().project_id == Some(
            project_id,
        ) && videos.last().is_completed {
            1nat
        } else {
            0nat
        })
    }
}

/// The users table: identifiers ascend and stay below the next one to be
/// handed out, no two users share a username or an email address, and no
/// failure counter is negative.
pub open spec fn users_valid(users: Seq<User>, next_id: i64) -> bool {
    &&& forall|i: int| 0 <= i < users.len() ==> 0 < (#[trigger] users[i]).user_id < next_id
    &&& forall|i: int, j: int|
        0 <= i < j < users.len() ==> (#[trigger] users[i]).user_id < (#[trigger] users[j]).user_id
    &&& forall|i: int, j: int|
        0 <= i < j < users.len() ==> (#[trigger] users[i]).username@ != (#[trigger] users[j]).username@
    &&& forall|i: int, j: int|
        0 <= i < j < users.len() ==> (#[trigger] users[i]).email@ != (#[trigger] users[j]).email@
    &&& forall|i: int| 0 <= i < users.len() ==> (#[trigger] users[i]).failed_login_attempts >= 0
}

/// The projects table: identifiers ascend, every creator exists, every
/// quality threshold is a fraction between zero and one, and the two
/// counters of a project are the numbers of its videos and of its completed
/// videos.
pub open spec fn projects_valid(
    projects: Seq<Project>,
    next_id: i64,
    users: Seq<User>,
    videos: Seq<Video>,
) -> bool {
    &&& forall|i: int|
        0 <= i < projects.len() ==> 0 < (#[trigger] projects[i]).project_id < next_id
    &&& forall|i: int, j: int|
        0 <= i < j < projects.len() ==> (#[trigger] projects[i]).project_id < (
        #[trigger] projects[j]).project_id
    &&& forall|i: int|
        0 <= i < projects.len() ==> has_user(users, (#[trigger] projects[i]).created_by)
    &&& forall|i: int|
        0 <= i < projects.len() ==> (#[trigger] projects[i]).quality_threshold.spec_is_fraction()
    &&& forall|i: int|
        0 <= i < projects.len() ==> (#[trigger] projects[i]).total_videos == video_count(
            videos,
            projects[i].project_id,
        )
    &&& forall|i: int|
        0 <= i < projects.len() ==> (#[trigger] projects[i]).completed_videos == completed_count(
            videos,
            projects[i].project_id,
        )
}

/// The videos table: identifiers ascend, and a video's project and assignee,
/// where it has them, exist.
pub open spec fn videos_valid(
    videos: Seq<Video>,
    next_id: i64,
    users: Seq<User>,
    projects: Seq<Project>,
) -> bool {
    &&& forall|i: int| 0 <= i < videos.len() ==> 0 < (#[trigger] videos[i]).video_id < next_id
    &&& forall|i: int, j: int|
        0 <= i < j < videos.len() ==> (#[trigger] videos[i]).video_id < (
        #[trigger] videos[j]).video_id
    &&& forall|i: int|
        0 <= i < videos.len() ==> ((#[trigger] videos[i]).project_id matches Some(p)
            ==> has_project(projects, p))
    &&& forall|i: int|
        0 <= i < videos.len() ==> user_ref_ok(users, (#[trigger] videos[i]).assigned_to)
}

/// What makes a time span acceptable: it ends after it starts, in seconds,
/// and does not end on an earlier frame than it starts on.
pub open spec fn span_ok(a: TemporalAnnotation) -> bool {
    a.end_time.spec_gt(a.start_time) && a.end_frame >= a.start_frame
}

/// The temporal annotations: identifiers ascend, the video and the creator
/// exist, and every span is acceptable.
pub open spec fn temporal_valid(
    temporal: Seq<TemporalAnnotation>,
    next_id: i64,
    users: Seq<User>,
    videos: Seq<Video>,
) -> bool {
    &&& forall|i: int|
        0 <= i < temporal.len() ==> 0 < (#[trigger] temporal[i]).annotation_id < next_id
    &&& forall|i: int, j: int|
        0 <= i < j < temporal.len() ==> (#[trigger] temporal[i]).annotation_id < (
        #[trigger] temporal[j]).annotation_id
    &&& forall|i: int|
        0 <= i < temporal.len() ==> has_video(videos, (#[trigger] temporal[i]).video_id)
    &&& forall|i: int|
        0 <= i < temporal.len() ==> user_ref_ok(users, (#[trigger] temporal[i]).created_by)
    &&& forall|i: int| 0 <= i < temporal.len() ==> span_ok(#[trigger] temporal[i])
}

/// What makes a box acceptable: positive width and height.
pub open spec fn box_ok(b: BoundingBoxAnnotation) -> bool {
    b.width.spec_is_positive() && b.height.spec_is_positive()
}

/// The bounding boxes: identifiers ascend, the video and the creator exist,
/// and every box is acceptable.
pub open spec fn boxes_valid(
    boxes: Seq<BoundingBoxAnnotation>,
    next_id: i64,
    users: Seq<User>,
    videos: Seq<Video>,
) -> bool {
    &&& forall|i: int| 0 <= i < boxes.len() ==> 0 < (#[trigger] boxes[i]).bbox_id < next_id
    &&& forall|i: int, j: int|
        0 <= i < j < boxes.len() ==> (#[trigger] boxes[i]).bbox_id < (#[trigger] boxes[j]).bbox_id
    &&& forall|i: int| 0 <= i < boxes.len() ==> has_video(videos, (#[trigger] boxes[i]).video_id)
    &&& forall|i: int|
        0 <= i < boxes.len() ==> user_ref_ok(users, (#[trigger] boxes[i]).created_by)
    &&& forall|i: int| 0 <= i < boxes.len() ==> box_ok(#[trigger] boxes[i])
}

/// Every identifier found among `before` is found among `after`.
pub open spec fn users_kept(before: Seq<User>, after: Seq<User>) -> bool {
    forall|id: i64| has_user(before, id) ==> has_user(after, id)
}

/// Adding a user keeps every identifier findable.
pub proof fn lemma_users_kept_push(users: Seq<User>, user: User)
    ensures
        users_kept(users, users.push(user)),
        has_user(users.push(user), user.user_id),
{
    let after = users.push(user);
    assert forall|id: i64| has_user(users, id) implies has_user(after, id) by {
        let i = choose|i: int| 0 <= i < users.len() && (#[trigger] users[i]).user_id == id;
        assert(after[i].user_id == id);
    }
    assert(after[users.len() as int].user_id == user.user_id);
}

/// Replacing a user by one with the same identifier keeps every identifier
/// findable.
pub proof fn lemma_users_kept_update(users: Seq<User>, at: int, user: User)
    requires
        0 <= at < users.len(),
        users[at].user_id == user.user_id,
    ensures
        users_kept(users, users.update(at, user)),
{
    let after = users.update(at, user);
    assert forall|id: i64| has_user(users, id) implies has_user(after, id) by {
        let i = choose|i: int| 0 <= i < users.len() && (#[trigger] users[i]).user_id == id;
        assert(after[i].user_id == id);
    }
}

/// The completed videos of a project are among its videos.
pub proof fn lemma_completed_at_most_total(videos: Seq<Video>, project_id: i64)
    ensures
        completed_count(videos, project_id) <= video_count(videos, project_id) <= videos.len(),
    decreases videos.len(),
{
    if videos.len() > 0 {
        lemma_completed_at_most_total(videos.drop_last(), project_id);
    }
}

/// What one more video adds to the counts of a project.
pub proof fn lemma_counts_push(videos: Seq<Video>, video: Video, project_id: i64)
    ensures
        video_count(videos.push(video), project_id) == video_count(videos, project_id) + (
        if video.project_id == Some(project_id) {
            1nat
        } else {
            0nat
        }),
        completed_count(videos.push(video), project_id) == completed_count(videos, project_id)
            + (if video.project_id == Some(project_id) && video.is_completed {
            1nat
        } else {
            0nat
        }),
{
    assert(videos.push(video).drop_last() =~= videos);
}

} // verus!
