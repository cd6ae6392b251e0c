//! Videos: listing them and importing batches of them. Videos are never
//! removed.

use vstd::prelude::*;
use vstd::string::StringExecFns;
use crate::annotations::lemma_filter_push;
use crate::database::{Database, DatabaseView};
use crate::error::{Entity, StoreError};
use crate::invariants::{
    completed_count,
    has_project,
    has_video,
    lemma_completed_at_most_total,
    lemma_counts_push,
    video_count,
};
use crate::lookup::find_project;
use crate::models::{copy_text, Project, Video, VideoImport};
use crate::projects::{lemma_position_of_project, lemma_projects_kept_update};

verus! {

/// Whether a listing with these filters shows the video. The filters
/// combine: a video is shown when it passes each one that is given. A named
/// assignee takes precedence over the request for unassigned videos.
pub open spec fn video_matches(
    video: Video,
    project_id: Option<i64>,
    assigned_to: Option<i64>,
    unassigned: Option<bool>,
) -> bool {
    &&& project_id matches Some(p) ==> video.project_id == Some(p)
    &&& match assigned_to {
        Some(user) => video.assigned_to == Some(user),
        None => unassigned == Some(true) ==> video.assigned_to is None,
    }
}

fn matches_filters(
    video: &Video,
    project_id: Option<i64>,
    assigned_to: Option<i64>,
    unassigned: Option<bool>,
) -> (r: bool)
    ensures
        r == video_matches(*video, project_id, assigned_to, unassigned),
{
    let in_project: bool = match project_id {
        Some(p) => match video.project_id {
            Some(q) => p == q,
            None => false,
        },
        None => true,
    };
    let assigned: bool = match assigned_to {
        Some(user) => match video.assigned_to {
            Some(other) => user == other,
            None => false,
        },
        None => match unassigned {
            Some(true) => video.assigned_to.is_none(),
            _ => true,
        },
    };
    in_project && assigned
}

/// The videos that pass the given filters, in the order in which they were
/// imported.
pub fn list_videos(
    db: &Database,
    project_id: Option<i64>,
    assigned_to: Option<i64>,
    unassigned: Option<bool>,
) -> (r: Vec<Video>)
    ensures
        r@ == db@.videos.filter(
            |v: Video| video_matches(v, project_id, assigned_to, unassigned),
        ),
{
    let videos = db.videos();
    let ghost pred = |v: Video| video_matches(v, project_id, assigned_to, unassigned);
    let mut listing: Vec<Video> = Vec::new();
    let mut i: usize = 0;
    proof {
        reveal(Seq::filter);
    }
    while i < videos.len()
        invariant
            i <= videos.len(),
            pred == |v: Video| video_matches(v, project_id, assigned_to, unassigned),
            listing@ == videos@.take(i as int).filter(pred),
        decreases videos.len() - i,
    {
        proof {
            lemma_filter_push(videos@.take(i as int), videos@[i as int], pred);
            assert(videos@.take(i as int).push(videos@[i as int]) =~= videos@.take(i + 1));
        }
        if matches_filters(&videos[i], project_id, assigned_to, unassigned) {
            listing.push(videos[i].clone());
        }
        i = i + 1;
    }
    assert(videos@.take(videos.len() as int) =~= videos@);
    listing
}

/// Why a batch of `count` files cannot be imported, if it cannot: the
/// project does not exist, or there are not enough identifiers left.
pub open spec fn upload_refusal(db: DatabaseView, count: nat, project_id: Option<i64>) -> Option<
    StoreError,
> {
    if project_id matches Some(p) && !has_project(db.projects, p) {
        Some(StoreError::NotFound(Entity::Project))
    } else if db.next_video_id + count > i64::MAX {
        Some(StoreError::StorageFailure)
    } else {
        None
    }
}

/// Whether `video` is what importing `import` at time `now` under
/// identifier `id` gives: pending, not completed, assigned to nobody, and
/// with the metadata that probing found, if it found any.
pub open spec fn is_imported(
    video: Video,
    import: VideoImport,
    project_id: Option<i64>,
    id: int,
    now: i64,
) -> bool {
    &&& video.video_id == id
    &&& video.filename == import.path
    &&& video.resolution == match import.metadata {
        Some(m) => m.resolution,
        None => None,
    }
    &&& video.framerate == match import.metadata {
        Some(m) => m.framerate,
        None => None,
    }
    &&& video.duration == match import.metadata {
        Some(m) => m.duration,
        None => None,
    }
    &&& video.import_date == now
    &&& video.normalization_settings is None
    &&& video.status@ == "pending"@
    &&& !video.is_completed
    &&& video.project_id == project_id
    &&& video.assigned_to is None
}

/// The project with `count` more videos.
pub open spec fn with_more_videos(project: Project, count: int) -> Project {
    Project { total_videos: (project.total_videos + count) as i64, ..project }
}

/// What a successful import does: the new rows follow the old ones, one for
/// each file and in the order of the batch, under consecutive identifiers;
/// the project, if one is named, counts them; nothing else changes.
pub open spec fn uploaded(
    before: DatabaseView,
    after: DatabaseView,
    rows: Seq<Video>,
    imports: Seq<VideoImport>,
    project_id: Option<i64>,
    now: i64,
) -> bool {
    &&& rows.len() == imports.len()
    &&& forall|i: int|
        0 <= i < rows.len() ==> is_imported(
            #[trigger] rows[i],
            imports[i],
            project_id,
            before.next_video_id + i,
            now,
        )
    &&& after.videos == before.videos + rows
    &&& after.next_video_id == before.next_video_id + rows.len()
    &&& match project_id {
        None => after.projects == before.projects,
        Some(p) => forall|at: int|
            0 <= at < before.projects.len() && (#[trigger] before.projects[at]).project_id == p
                ==> after.projects == before.projects.update(
                at,
                with_more_videos(before.projects[at], rows.len() as int),
            ),
    }
    &&& after == (DatabaseView {
        videos: after.videos,
        next_video_id: after.next_video_id,
        projects: after.projects,
        ..before
    })
}

/// A table whose identifiers ascend from above zero has fewer rows than its
/// next identifier.
pub proof fn lemma_rows_below_next(videos: Seq<Video>, next_id: i64, at: int)
    requires
        forall|i: int| 0 <= i < videos.len() ==> 0 < (#[trigger] videos[i]).video_id < next_id,
        forall|i: int, j: int|
            0 <= i < j < videos.len() ==> (#[trigger] videos[i]).video_id < (
            #[trigger] videos[j]).video_id,
        0 <= at < videos.len(),
    ensures
        videos[at].video_id > at,
    decreases at,
{
    if at > 0 {
        lemma_rows_below_next(videos, next_id, at - 1);
        assert(videos[at - 1].video_id < videos[at].video_id);
    }
}

/// Every identifier found among the videos is still found after one more.
pub proof fn lemma_videos_kept_push(videos: Seq<Video>, video: Video)
    ensures
        forall|id: i64| has_video(videos, id) ==> has_video(videos.push(video), id),
{
    let after = videos.push(video);
    assert forall|id: i64| has_video(videos, id) implies has_video(after, id) by {
        let i = choose|i: int| 0 <= i < videos.len() && (#[trigger] videos[i]).video_id == id;
        assert(after[i].video_id == id);
    }
}

fn add_video(db: &mut Database, video: Video, project_at: Option<usize>)
    requires
        old(db)@.wf(),
        old(db)@.next_video_id < i64::MAX,
        video.video_id == old(db)@.next_video_id,
        !video.is_completed,
        video.assigned_to is None,
        match project_at {
            Some(at) => at < old(db)@.projects.len() && video.project_id == Some(
                old(db)@.projects[at as int].project_id,
            ),
            None => video.project_id is None,
        },
    ensures
        final(db)@.wf(),
        final(db)@ == (DatabaseView {
            videos: old(db)@.videos.push(video),
            next_video_id: (old(db)@.next_video_id + 1) as i64,
            projects: match project_at {
                Some(at) => old(db)@.projects.update(
                    at as int,
                    with_more_videos(old(db)@.projects[at as int], 1),
                ),
                None => old(db)@.projects,
            },
            ..old(db)@
        }),
{
    let ghost before = db@;
    proof {
        lemma_videos_kept_push(before.videos, video);
        assert forall|k: int| 0 <= k < before.projects.len() implies video_count(
            before.videos.push(video),
            (#[trigger] before.projects[k]).project_id,
        ) == video_count(before.videos, before.projects[k].project_id) + (if video.project_id
            == Some(before.projects[k].project_id) {
            1nat
        } else {
            0nat
        }) && completed_count(before.videos.push(video), before.projects[k].project_id)
            == completed_count(before.videos, before.projects[k].project_id) by {
            lemma_counts_push(before.videos, video, before.projects[k].project_id);
        }
    }
    match project_at {
        Some(at) => {
            let current: &Project = &db.projects()[at];
            proof {
                lemma_completed_at_most_total(before.videos, current.project_id);
                if before.videos.len() > 0 {
                    lemma_rows_below_next(
                        before.videos,
                        before.next_video_id,
                        before.videos.len() - 1,
                    );
                }
                lemma_position_of_project(before, at as int);
            }
            let mut project = current.clone();
            project.total_videos = project.total_videos + 1;
            proof {
                lemma_projects_kept_update(before.projects, at as int, project);
            }
            db.replace_project(at, project);
            db.append_video(video);
        },
        None => {
            db.append_video(video);
        },
    }
}

/// Imports a batch of files, into a project if one is named.
///
/// Succeeds exactly when [`upload_refusal`] finds no reason against it, and
/// then stores one video for each file, whether or not the file could be
/// probed: a file without metadata gets a row without resolution, frame
/// rate and duration. A batch that is refused leaves the store as it was.
pub fn upload_videos(
    db: &mut Database,
    imports: Vec<VideoImport>,
    project_id: Option<i64>,
    now: i64,
) -> (r: Result<Vec<Video>, StoreError>)
    requires
        old(db)@.wf(),
    ensures
        final(db)@.wf(),
        match upload_refusal(old(db)@, imports@.len(), project_id) {
            Some(e) => r == Err::<Vec<Video>, StoreError>(e) && final(db)@ == old(db)@,
            None => r matches Ok(rows) && uploaded(
                old(db)@,
                final(db)@,
                rows@,
                imports@,
                project_id,
                now,
            ),
        },
{
    let project_at: Option<usize> = match project_id {
        Some(p) => match find_project(db.projects(), p) {
            Some(at) => Some(at),
            None => {
                return Err(StoreError::NotFound(Entity::Project));
            },
        },
        None => None,
    };
    let first: i64 = db.next_video_id();
    let room: u64 = (i64::MAX - first) as u64;
    if imports.len() as u64 > room {
        return Err(StoreError::StorageFailure);
    }
    let ghost before = db@;
    proof {
        if project_at is Some {
            let at = project_at->Some_0 as int;
            lemma_position_of_project(before, at);
            lemma_completed_at_most_total(before.videos, before.projects[at].project_id);
            if before.videos.len() > 0 {
                lemma_rows_below_next(
                    before.videos,
                    before.next_video_id,
                    before.videos.len() - 1,
                );
            }
        }
    }
    let mut rows: Vec<Video> = Vec::new();
    let mut i: usize = 0;
    while i < imports.len()
        invariant
            i <= imports.len(),
            before.wf(),
            db@.wf(),
            first == before.next_video_id,
            before.next_video_id + imports.len() <= i64::MAX,
            rows.len() == i,
            forall|k: int|
                0 <= k < i ==> is_imported(
                    #[trigger] rows[k],
                    imports[k],
                    project_id,
                    before.next_video_id + k,
                    now,
                ),
            db@.videos == before.videos + rows@,
            db@.next_video_id == before.next_video_id + i,
            match project_at {
                Some(at) => at < before.projects.len() && project_id == Some(
                    before.projects[at as int].project_id,
                ) && 0 <= before.projects[at as int].total_videos
                    && before.projects[at as int].total_videos + imports.len() <= i64::MAX
                    && db@.projects == before.projects.update(
                    at as int,
                    with_more_videos(before.projects[at as int], i as int),
                ),
                None => project_id is None && db@.projects == before.projects,
            },
            db@ == (DatabaseView {
                videos: db@.videos,
                next_video_id: db@.next_video_id,
                projects: db@.projects,
                ..before
            }),
        decreases imports.len() - i,
    {
        let import: &VideoImport = &imports[i];
        let video = Video {
            video_id: db.next_video_id(),
            filename: import.path.clone(),
            resolution: match &import.metadata {
                Some(m) => copy_text(&m.resolution),
                None => None,
            },
            framerate: match &import.metadata {
                Some(m) => m.framerate,
                None => None,
            },
            duration: match &import.metadata {
                Some(m) => m.duration,
                None => None,
            },
            import_date: now,
            normalization_settings: None,
            status: String::from_str("pending"),
            is_completed: false,
            project_id,
            assigned_to: None,
        };
        let row = video.clone();
        add_video(db, video, project_at);
        rows.push(row);
        proof {
            assert(db@.videos =~= before.videos + rows@);
            if project_at is Some {
                let at = project_at->Some_0 as int;
                assert(db@.projects =~= before.projects.update(
                    at,
                    with_more_videos(before.projects[at], i + 1),
                ));
            }
        }
        i = i + 1;
    }
    proof {
        if rows.len() == 0 {
            assert(before.videos + rows@ =~= before.videos);
            if project_at is Some {
                let at = project_at->Some_0 as int;
                assert(before.projects.update(at, with_more_videos(before.projects[at], 0))
                    =~= before.projects);
            }
        }
    }
    Ok(rows)
}

} // verus!
