//! Finding rows by identifier or by name. Each search walks the table from
//! the front and reports the position of the row it found.

use vstd::prelude::*;
use crate::invariants::{has_project, has_user, has_video};
use crate::models::{BoundingBoxAnnotation, Project, TemporalAnnotation, User, Video};

verus! {

/// Some user has this username.
pub open spec fn username_taken(users: Seq<User>, name: Seq<char>) -> bool {
    exists|i: int| 0 <= i < users.len() && (#[trigger] users[i]).username@ == name
}

/// Some user has this email address.
pub open spec fn email_taken(users: Seq<User>, email: Seq<char>) -> bool {
    exists|i: int| 0 <= i < users.len() && (#[trigger] users[i]).email@ == email
}

/// Some temporal annotation has this identifier.
pub open spec fn has_temporal(temporal: Seq<TemporalAnnotation>, id: i64) -> bool {
    exists|i: int| 0 <= i < temporal.len() && (#[trigger] temporal[i]).annotation_id == id
}

/// Some bounding box has this identifier.
pub open spec fn has_box(boxes: Seq<BoundingBoxAnnotation>, id: i64) -> bool {
    exists|i: int| 0 <= i < boxes.len() && (#[trigger] boxes[i]).bbox_id == id
}

/// The position of the user with this identifier.
pub fn find_user(users: &Vec<User>, id: i64) -> (r: Option<usize>)
    ensures
        r matches Some(i) ==> i < users.len() && users[i as int].user_id == id,
        r is Some <==> has_user(users@, id),
{
    let mut i: usize = 0;
    while i < users.len()
        invariant
            i <= users.len(),
            forall|k: int| 0 <= k < i ==> (#[trigger] users[k]).user_id != id,
        decreases users.len() - i,
    {
        if users[i].user_id == id {
            return Some(i);
        }
        i = i + 1;
    }
    None
}

/// The position of the first user with this username.
pub fn find_username(users: &Vec<User>, name: &String) -> (r: Option<usize>)
    ensures
        r matches Some(i) ==> i < users.len() && users[i as int].username@ == name@,
        r is Some <==> username_taken(users@, name@),
{
    let mut i: usize = 0;
    while i < users.len()
        invariant
            i <= users.len(),
            forall|k: int| 0 <= k < i ==> (#[trigger] users[k]).username@ != name@,
        decreases users.len() - i,
    {
        if users[i].username == *name {
            return Some(i);
        }
        i = i + 1;
    }
    None
}

/// The position of the first user with this email address.
pub fn find_email(users: &Vec<User>, email: &String) -> (r: Option<usize>)
    ensures
        r matches Some(i) ==> i < users.len() && users[i as int].email@ == email@,
        r is Some <==> email_taken(users@, email@),
{
    let mut i: usize = 0;
    while i < users.len()
        invariant
            i <= users.len(),
            forall|k: int| 0 <= k < i ==> (#[trigger] users[k]).email@ != email@,
        decreases users.len() - i,
    {
        if users[i].email == *email {
            return Some(i);
        }
        i = i + 1;
    }
    None
}

/// The position of the project with this identifier.
pub fn find_project(projects: &Vec<Project>, id: i64) -> (r: Option<usize>)
    ensures
        r matches Some(i) ==> i < projects.len() && projects[i as int].project_id == id,
        r is Some <==> has_project(projects@, id),
{
    let mut i: usize = 0;
    while i < projects.len()
        invariant
            i <= projects.len(),
            forall|k: int| 0 <= k < i ==> (#[trigger] projects[k]).project_id != id,
        decreases projects.len() - i,
    {
        if projects[i].project_id == id {
            return Some(i);
        }
        i = i + 1;
    }
    None
}

/// The position of the video with this identifier.
pub fn find_video(videos: &Vec<Video>, id: i64) -> (r: Option<usize>)
    ensures
        r matches Some(i) ==> i < videos.len() && videos[i as int].video_id == id,
        r is Some <==> has_video(videos@, id),
{
    let mut i: usize = 0;
    while i < videos.len()
        invariant
            i <= videos.len(),
            forall|k: int| 0 <= k < i ==> (#[trigger] videos[k]).video_id != id,
        decreases videos.len() - i,
    {
        if videos[i].video_id == id {
            return Some(i);
        }
        i = i + 1;
    }
    None
}

/// The position of the temporal annotation with this identifier.
pub fn find_temporal(temporal: &Vec<TemporalAnnotation>, id: i64) -> (r: Option<usize>)
    ensures
        r matches Some(i) ==> i < temporal.len() && temporal[i as int].annotation_id == id,
        r is Some <==> has_temporal(temporal@, id),
{
    let mut i: usize = 0;
    while i < temporal.len()
        invariant
            i <= temporal.len(),
            forall|k: int| 0 <= k < i ==> (#[trigger] temporal[k]).annotation_id != id,
        decreases temporal.len() - i,
    {
        if temporal[i].annotation_id == id {
            return Some(i);
        }
        i = i + 1;
    }
    None
}

/// The position of the bounding box with this identifier.
pub fn find_box(boxes: &Vec<BoundingBoxAnnotation>, id: i64) -> (r: Option<usize>)
    ensures
        r matches Some(i) ==> i < boxes.len() && boxes[i as int].bbox_id == id,
        r is Some <==> has_box(boxes@, id),
{
    let mut i: usize = 0;
    while i < boxes.len()
        invariant
            i <= boxes.len(),
            forall|k: int| 0 <= k < i ==> (#[trigger] boxes[k]).bbox_id != id,
        decreases boxes.len() - i,
    {
        if boxes[i].bbox_id == id {
            return Some(i);
        }
        i = i + 1;
    }
    None
}

} // verus!
