//! The records the store keeps and the requests that change them.
//!
//! Timestamps are whole seconds since the Unix epoch. Numbers that are not
//! integers (times within a video, coordinates, thresholds) are
//! [`Double`] bit patterns.

use vstd::prelude::*;
use crate::double::Double;

verus! {

/// A copy of an optional text.
pub fn copy_text(text: &Option<String>) -> (r: Option<String>)
    ensures
        r == *text,
{
    match text {
        Some(s) => Some(s.clone()),
        None => None,
    }
}

/// An identity record, as stored. The password is present only as a salted
/// one-way hash.
#[derive(Debug, PartialEq, Eq)]
pub struct User {
    pub user_id: i64,
    pub username: String,
    pub email: String,
    pub password_hash: String,
    pub role: String,
    pub full_name: String,
    pub is_active: bool,
    pub created_at: i64,
    pub last_active: Option<i64>,
    pub failed_login_attempts: i64,
    pub locked_until: Option<i64>,
    pub password_changed_at: i64,
    pub must_change_password: bool,
}

impl Clone for User {
    fn clone(&self) -> (r: Self)
        ensures
            r == *self,
    {
        User {
            user_id: self.user_id,
            username: self.username.clone(),
            email: self.email.clone(),
            password_hash: self.password_hash.clone(),
            role: self.role.clone(),
            full_name: self.full_name.clone(),
            is_active: self.is_active,
            created_at: self.created_at,
            last_active: self.last_active,
            failed_login_attempts: self.failed_login_attempts,
            locked_until: self.locked_until,
            password_changed_at: self.password_changed_at,
            must_change_password: self.must_change_password,
        }
    }
}

/// What the rest of the application may see of a user: no credential and no
/// security counters.
#[derive(Debug, PartialEq, Eq)]
pub struct UserPublic {
    pub user_id: i64,
    pub username: String,
    pub email: String,
    pub role: String,
    pub full_name: String,
    pub is_active: bool,
    pub created_at: i64,
    pub last_active: Option<i64>,
}

impl UserPublic {
    /// The redacted projection of a stored user.
    pub open spec fn of(user: User) -> UserPublic {
        UserPublic {
            user_id: user.user_id,
            username: user.username,
            email: user.email,
            role: user.role,
            full_name: user.full_name,
            is_active: user.is_active,
            created_at: user.created_at,
            last_active: user.last_active,
        }
    }

    /// The redacted projection of a stored user, leaving the record in place.
    pub fn of_row(user: &User) -> (r: UserPublic)
        ensures
            r == UserPublic::of(*user),
    {
        UserPublic {
            user_id: user.user_id,
            username: user.username.clone(),
            email: user.email.clone(),
            role: user.role.clone(),
            full_name: user.full_name.clone(),
            is_active: user.is_active,
            created_at: user.created_at,
            last_active: user.last_active,
        }
    }
}

impl vstd::std_specs::convert::FromSpecImpl<User> for UserPublic {
    open spec fn obeys_from_spec() -> bool {
        true
    }

    open spec fn from_spec(user: User) -> UserPublic {
        UserPublic::of(user)
    }
}

impl From<User> for UserPublic {
    fn from(user: User) -> (r: UserPublic) {
        UserPublic {
            user_id: user.user_id,
            username: user.username,
            email: user.email,
            role: user.role,
            full_name: user.full_name,
            is_active: user.is_active,
            created_at: user.created_at,
            last_active: user.last_active,
        }
    }
}

/// A unit of annotation work. The two video counters are kept by the store
/// and always agree with the videos that belong to the project.
#[derive(Debug, PartialEq, Eq)]
pub struct Project {
    pub project_id: i64,
    pub name: String,
    pub description: Option<String>,
    pub created_by: i64,
    pub created_at: i64,
    pub deadline: Option<i64>,
    pub status: String,
    pub annotation_schema: Option<String>,
    pub normalization_settings: Option<String>,
    pub quality_threshold: Double,
    pub total_videos: i64,
    pub completed_videos: i64,
    pub last_activity: i64,
}

impl Clone for Project {
    fn clone(&self) -> (r: Self)
        ensures
            r == *self,
    {
        Project {
            project_id: self.project_id,
            name: self.name.clone(),
            description: copy_text(&self.description),
            created_by: self.created_by,
            created_at: self.created_at,
            deadline: self.deadline,
            status: self.status.clone(),
            annotation_schema: copy_text(&self.annotation_schema),
            normalization_settings: copy_text(&self.normalization_settings),
            quality_threshold: self.quality_threshold,
            total_videos: self.total_videos,
            completed_videos: self.completed_videos,
            last_activity: self.last_activity,
        }
    }
}

/// An imported media file. Resolution, frame rate and duration are absent
/// when the file could not be probed.
#[derive(Debug, PartialEq, Eq)]
pub struct Video {
    pub video_id: i64,
    pub filename: String,
    pub resolution: Option<String>,
    pub framerate: Option<Double>,
    pub duration: Option<Double>,
    pub import_date: i64,
    pub normalization_settings: Option<String>,
    pub status: String,
    pub is_completed: bool,
    pub project_id: Option<i64>,
    pub assigned_to: Option<i64>,
}

impl Clone for Video {
    fn clone(&self) -> (r: Self)
        ensures
            r == *self,
    {
        Video {
            video_id: self.video_id,
            filename: self.filename.clone(),
            resolution: copy_text(&self.resolution),
            framerate: self.framerate,
            duration: self.duration,
            import_date: self.import_date,
            normalization_settings: copy_text(&self.normalization_settings),
            status: self.status.clone(),
            is_completed: self.is_completed,
            project_id: self.project_id,
            assigned_to: self.assigned_to,
        }
    }
}

/// A labelled time span on a video.
#[derive(Debug, PartialEq, Eq)]
pub struct TemporalAnnotation {
    pub annotation_id: i64,
    pub video_id: i64,
    pub start_time: Double,
    pub end_time: Double,
    pub start_frame: i64,
    pub end_frame: i64,
    pub label: String,
    pub created_by: Option<i64>,
    pub created_at: i64,
}

impl Clone for TemporalAnnotation {
    fn clone(&self) -> (r: Self)
        ensures
            r == *self,
    {
        TemporalAnnotation {
            annotation_id: self.annotation_id,
            video_id: self.video_id,
            start_time: self.start_time,
            end_time: self.end_time,
            start_frame: self.start_frame,
            end_frame: self.end_frame,
            label: self.label.clone(),
            created_by: self.created_by,
            created_at: self.created_at,
        }
    }
}

/// A labelled rectangle on one frame of a video.
#[derive(Debug, PartialEq, Eq)]
pub struct BoundingBoxAnnotation {
    pub bbox_id: i64,
    pub video_id: i64,
    pub frame_index: i64,
    pub x: Double,
    pub y: Double,
    pub width: Double,
    pub height: Double,
    pub part_label: String,
    pub created_by: Option<i64>,
    pub created_at: i64,
}

impl Clone for BoundingBoxAnnotation {
    fn clone(&self) -> (r: Self)
        ensures
            r == *self,
    {
        BoundingBoxAnnotation {
            bbox_id: self.bbox_id,
            video_id: self.video_id,
            frame_index: self.frame_index,
            x: self.x,
            y: self.y,
            width: self.width,
            height: self.height,
            part_label: self.part_label.clone(),
            created_by: self.created_by,
            created_at: self.created_at,
        }
    }
}

/// Credentials presented at login.
#[derive(Debug, PartialEq, Eq)]
pub struct LoginRequest {
    pub username: String,
    pub password: String,
}

/// What a new user supplies. Without a role the user becomes an annotator.
#[derive(Debug, PartialEq, Eq)]
pub struct RegisterRequest {
    pub username: String,
    pub email: String,
    pub password: String,
    pub full_name: String,
    pub role: Option<String>,
}

/// The old and the new password of a password change.
#[derive(Debug, PartialEq, Eq)]
pub struct ChangePasswordRequest {
    pub current_password: String,
    pub new_password: String,
}

/// What the creator of a project supplies.
#[derive(Debug, PartialEq, Eq)]
pub struct CreateProjectRequest {
    pub name: String,
    pub description: Option<String>,
    pub deadline: Option<i64>,
}

/// A temporal annotation to be stored.
#[derive(Debug, PartialEq, Eq)]
pub struct SaveTemporalAnnotationRequest {
    pub video_id: i64,
    pub start_time: Double,
    pub end_time: Double,
    pub start_frame: i64,
    pub end_frame: i64,
    pub label: String,
}

/// A bounding box to be stored.
#[derive(Debug, PartialEq, Eq)]
pub struct SaveBboxAnnotationRequest {
    pub video_id: i64,
    pub frame_index: i64,
    pub x: Double,
    pub y: Double,
    pub width: Double,
    pub height: Double,
    pub part_label: String,
}

/// What probing a media file found out about it.
#[derive(Debug, PartialEq, Eq)]
pub struct VideoMetadata {
    pub resolution: Option<String>,
    pub framerate: Option<Double>,
    pub duration: Option<Double>,
}

/// One file of an import batch: its path and, if probing succeeded, what
/// was found.
#[derive(Debug, PartialEq, Eq)]
pub struct VideoImport {
    pub path: String,
    pub metadata: Option<VideoMetadata>,
}

} // verus!
