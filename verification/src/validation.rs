//! Checking rows that come from outside, such as a saved copy of the
//! tables, against the invariant of the store. Each check answers exactly
//! what the corresponding rule of the invariant says.

use vstd::prelude::*;
use crate::invariants::{
    box_ok,
    boxes_valid,
    completed_count,
    has_project,
    has_user,
    has_video,
    projects_valid,
    span_ok,
    temporal_valid,
    user_ref_ok,
    users_valid,
    video_count,
    videos_valid,
};
use crate::lookup::{find_project, find_user, find_video};
use crate::models::{BoundingBoxAnnotation, Project, TemporalAnnotation, User, Video};

verus! {

/// Whether the rows of the users table obey [`users_valid`].
pub fn users_ok(users: &Vec<User>, next_id: i64) -> (r: bool)
    ensures
        r == users_valid(users@, next_id),
{
    let mut i: usize = 0;
    while i < users.len()
        invariant
            i <= users.len(),
            forall|a: int| 0 <= a < i ==> 0 < (#[trigger] users[a]).user_id < next_id,
            forall|a: int| 0 <= a < i ==> (#[trigger] users[a]).failed_login_attempts >= 0,
            forall|a: int, b: int|
                0 <= a < b < i ==> (#[trigger] users[a]).user_id < (#[trigger] users[b]).user_id,
            forall|a: int, b: int|
                0 <= a < b < i ==> (#[trigger] users[a]).username@ != (
                #[trigger] users[b]).username@,
            forall|a: int, b: int|
                0 <= a < b < i ==> (#[trigger] users[a]).email@ != (#[trigger] users[b]).email@,
        decreases users.len() - i,
    {
        let user: &User = &users[i];
        if !(0 < user.user_id && user.user_id < next_id) {
            return false;
        }
        if user.failed_login_attempts < 0 {
            return false;
        }
        if i > 0 && users[i - 1].user_id >= user.user_id {
            assert(!(users[i - 1].user_id < users[i as int].user_id));
            return false;
        }
        let mut k: usize = 0;
        while k < i
            invariant
                k <= i,
                i < users.len(),
                *user == users[i as int],
                forall|a: int|
                    0 <= a < k ==> (#[trigger] users[a]).username@ != users[i as int].username@,
                forall|a: int|
                    0 <= a < k ==> (#[trigger] users[a]).email@ != users[i as int].email@,
            decreases i - k,
        {
            if users[k].username == user.username {
                assert(!(users[k as int].username@ != users[i as int].username@));
                return false;
            }
            if users[k].email == user.email {
                assert(!(users[k as int].email@ != users[i as int].email@));
                return false;
            }
            k = k + 1;
        }
        proof {
            assert forall|a: int, b: int| 0 <= a < b < i + 1 implies (
            #[trigger] users[a]).user_id < (#[trigger] users[b]).user_id by {
                if b == i && a < i - 1 {
                    assert(users[a].user_id < users[i - 1].user_id);
                }
            }
        }
        i = i + 1;
    }
    true
}

/// How many of the videos belong to the project, and how many of those are
/// completed.
pub fn count_videos(videos: &Vec<Video>, project_id: i64) -> (r: (usize, usize))
    ensures
        r.0 == video_count(videos@, project_id),
        r.1 == completed_count(videos@, project_id),
{
    let mut total: usize = 0;
    let mut completed: usize = 0;
    let mut i: usize = 0;
    while i < videos.len()
        invariant
            i <= videos.len(),
            total == video_count(videos@.take(i as int), project_id),
            completed == completed_count(videos@.take(i as int), project_id),
            completed <= total <= i,
        decreases videos.len() - i,
    {
        proof {
            assert(videos@.take(i + 1).drop_last() =~= videos@.take(i as int));
        }
        let in_project: bool = match videos[i].project_id {
            Some(p) => p == project_id,
            None => false,
        };
        if in_project {
            total = total + 1;
            if videos[i].is_completed {
                completed = completed + 1;
            }
        }
        i = i + 1;
    }
    assert(videos@.take(videos.len() as int) =~= videos@);
    (total, completed)
}

/// Whether the rows of the projects table obey [`projects_valid`].
pub fn projects_ok(projects: &Vec<Project>, next_id: i64, users: &Vec<User>, videos: &Vec<Video>) -> (r:
    bool)
    ensures
        r == projects_valid(projects@, next_id, users@, videos@),
{
    let mut i: usize = 0;
    while i < projects.len()
        invariant
            i <= projects.len(),
            forall|a: int| 0 <= a < i ==> 0 < (#[trigger] projects[a]).project_id < next_id,
            forall|a: int, b: int|
                0 <= a < b < i ==> (#[trigger] projects[a]).project_id < (
                #[trigger] projects[b]).project_id,
            forall|a: int| 0 <= a < i ==> has_user(users@, (#[trigger] projects[a]).created_by),
            forall|a: int|
                0 <= a < i ==> (#[trigger] projects[a]).quality_threshold.spec_is_fraction(),
            forall|a: int|
                0 <= a < i ==> (#[trigger] projects[a]).total_videos == video_count(
                    videos@,
                    projects[a].project_id,
                ),
            forall|a: int|
                0 <= a < i ==> (#[trigger] projects[a]).completed_videos == completed_count(
                    videos@,
                    projects[a].project_id,
                ),
        decreases projects.len() - i,
    {
        let project: &Project = &projects[i];
        if !(0 < project.project_id && project.project_id < next_id) {
            return false;
        }
        if i > 0 && projects[i - 1].project_id >= project.project_id {
            assert(!(projects[i - 1].project_id < projects[i as int].project_id));
            return false;
        }
        if find_user(users, project.created_by).is_none() {
            return false;
        }
        if !project.quality_threshold.is_fraction() {
            return false;
        }
        let counts = count_videos(videos, project.project_id);
        if project.total_videos < 0 || project.completed_videos < 0 {
            return false;
        }
        if project.total_videos as u64 != counts.0 as u64 || project.completed_videos as u64
            != counts.1 as u64 {
            return false;
        }
        proof {
            assert forall|a: int, b: int| 0 <= a < b < i + 1 implies (
            #[trigger] projects[a]).project_id < (#[trigger] projects[b]).project_id by {
                if b == i && a < i - 1 {
                    assert(projects[a].project_id < projects[i - 1].project_id);
                }
            }
        }
        i = i + 1;
    }
    true
}

fn user_ref_exists(users: &Vec<User>, id: Option<i64>) -> (r: bool)
    ensures
        r == user_ref_ok(users@, id),
{
    match id {
        Some(u) => find_user(users, u).is_some(),
        None => true,
    }
}

/// Whether the rows of the videos table obey [`videos_valid`].
pub fn videos_ok(videos: &Vec<Video>, next_id: i64, users: &Vec<User>, projects: &Vec<Project>) -> (r:
    bool)
    ensures
        r == videos_valid(videos@, next_id, users@, projects@),
{
    let mut i: usize = 0;
    while i < videos.len()
        invariant
            i <= videos.len(),
            forall|a: int| 0 <= a < i ==> 0 < (#[trigger] videos[a]).video_id < next_id,
            forall|a: int, b: int|
                0 <= a < b < i ==> (#[trigger] videos[a]).video_id < (
                #[trigger] videos[b]).video_id,
            forall|a: int|
                0 <= a < i ==> ((#[trigger] videos[a]).project_id matches Some(p) ==> has_project(
                    projects@,
                    p,
                )),
            forall|a: int| 0 <= a < i ==> user_ref_ok(users@, (#[trigger] videos[a]).assigned_to),
        decreases videos.len() - i,
    {
        let video: &Video = &videos[i];
        if !(0 < video.video_id && video.video_id < next_id) {
            return false;
        }
        if i > 0 && videos[i - 1].video_id >= video.video_id {
            assert(!(videos[i - 1].video_id < videos[i as int].video_id));
            return false;
        }
        let project_found: bool = match video.project_id {
            Some(p) => find_project(projects, p).is_some(),
            None => true,
        };
        if !project_found {
            return false;
        }
        if !user_ref_exists(users, video.assigned_to) {
            return false;
        }
        proof {
            assert forall|a: int, b: int| 0 <= a < b < i + 1 implies (
            #[trigger] videos[a]).video_id < (#[trigger] videos[b]).video_id by {
                if b == i && a < i - 1 {
                    assert(videos[a].video_id < videos[i - 1].video_id);
                }
            }
        }
        i = i + 1;
    }
    true
}

/// Whether the temporal annotations obey [`temporal_valid`].
pub fn temporal_ok(
    temporal: &Vec<TemporalAnnotation>,
    next_id: i64,
    users: &Vec<User>,
    videos: &Vec<Video>,
) -> (r: bool)
    ensures
        r == temporal_valid(temporal@, next_id, users@, videos@),
{
    let mut i: usize = 0;
    while i < temporal.len()
        invariant
            i <= temporal.len(),
            forall|a: int| 0 <= a < i ==> 0 < (#[trigger] temporal[a]).annotation_id < next_id,
            forall|a: int, b: int|
                0 <= a < b < i ==> (#[trigger] temporal[a]).annotation_id < (
                #[trigger] temporal[b]).annotation_id,
            forall|a: int| 0 <= a < i ==> has_video(videos@, (#[trigger] temporal[a]).video_id),
            forall|a: int|
                0 <= a < i ==> user_ref_ok(users@, (#[trigger] temporal[a]).created_by),
            forall|a: int| 0 <= a < i ==> span_ok(#[trigger] temporal[a]),
        decreases temporal.len() - i,
    {
        let row: &TemporalAnnotation = &temporal[i];
        if !(0 < row.annotation_id && row.annotation_id < next_id) {
            return false;
        }
        if i > 0 && temporal[i - 1].annotation_id >= row.annotation_id {
            assert(!(temporal[i - 1].annotation_id < temporal[i as int].annotation_id));
            return false;
        }
        if find_video(videos, row.video_id).is_none() {
            return false;
        }
        if !user_ref_exists(users, row.created_by) {
            return false;
        }
        if !(row.end_time.gt(row.start_time) && row.end_frame >= row.start_frame) {
            assert(!span_ok(temporal[i as int]));
            return false;
        }
        proof {
            assert forall|a: int, b: int| 0 <= a < b < i + 1 implies (
            #[trigger] temporal[a]).annotation_id < (#[trigger] temporal[b]).annotation_id by {
                if b == i && a < i - 1 {
                    assert(temporal[a].annotation_id < temporal[i - 1].annotation_id);
                }
            }
        }
        i = i + 1;
    }
    true
}

/// Whether the bounding boxes obey [`boxes_valid`].
pub fn boxes_ok(
    boxes: &Vec<BoundingBoxAnnotation>,
    next_id: i64,
    users: &Vec<User>,
    videos: &Vec<Video>,
) -> (r: bool)
    ensures
        r == boxes_valid(boxes@, next_id, users@, videos@),
{
    let mut i: usize = 0;
    while i < boxes.len()
        invariant
            i <= boxes.len(),
            forall|a: int| 0 <= a < i ==> 0 < (#[trigger] boxes[a]).bbox_id < next_id,
            forall|a: int, b: int|
                0 <= a < b < i ==> (#[trigger] boxes[a]).bbox_id < (#[trigger] boxes[b]).bbox_id,
            forall|a: int| 0 <= a < i ==> has_video(videos@, (#[trigger] boxes[a]).video_id),
            forall|a: int| 0 <= a < i ==> user_ref_ok(users@, (#[trigger] boxes[a]).created_by),
            forall|a: int| 0 <= a < i ==> box_ok(#[trigger] boxes[a]),
        decreases boxes.len() - i,
    {
        let row: &BoundingBoxAnnotation = &boxes[i];
        if !(0 < row.bbox_id && row.bbox_id < next_id) {
            return false;
        }
        if i > 0 && boxes[i - 1].bbox_id >= row.bbox_id {
            assert(!(boxes[i - 1].bbox_id < boxes[i as int].bbox_id));
            return false;
        }
        if find_video(videos, row.video_id).is_none() {
            return false;
        }
        if !user_ref_exists(users, row.created_by) {
            return false;
        }
        if !(row.width.is_positive() && row.height.is_positive()) {
            assert(!box_ok(boxes[i as int]));
            return false;
        }
        proof {
            assert forall|a: int, b: int| 0 <= a < b < i + 1 implies (
            #[trigger] boxes[a]).bbox_id < (#[trigger] boxes[b]).bbox_id by {
                if b == i && a < i - 1 {
                    assert(boxes[a].bbox_id < boxes[i - 1].bbox_id);
                }
            }
        }
        i = i + 1;
    }
    true
}

} // verus!
