//! Projects: listing, creating, reading and updating them. Projects are
//! never removed; a project that is done is marked so by its status.

use vstd::prelude::*;
use vstd::string::StringExecFns;
use crate::database::{Database, DatabaseView};
use crate::double::Double;
use crate::error::{Entity, StoreError};
use crate::invariants::{completed_count, has_project, has_user, video_count};
use crate::lookup::{find_project, find_user};
use crate::models::{copy_text, CreateProjectRequest, Project, Video};

verus! {

/// The bit pattern of 0.8, the quality threshold a new project starts with.
pub const DEFAULT_QUALITY_THRESHOLD: u64 = 0x3fe9_9999_9999_999a;

/// Whether a listing for `user_id` shows the project: every project when no
/// user is named, else the projects that user created.
pub open spec fn visible_to(project: Project, user_id: Option<i64>) -> bool {
    match user_id {
        Some(user) => project.created_by == user,
        None => true,
    }
}

/// The order of a listing: the project with the later activity comes first,
/// and of two with the same activity the one that was created first.
pub open spec fn listed_before(p: Project, q: Project) -> bool {
    p.last_activity > q.last_activity || (p.last_activity == q.last_activity && p.project_id
        < q.project_id)
}

/// Whether `listing` is the listing of `projects` for `user_id`: it holds
/// exactly the projects that are visible, in the order of a listing.
pub open spec fn is_listing(listing: Seq<Project>, projects: Seq<Project>, user_id: Option<i64>) -> bool {
    &&& forall|i: int, j: int|
        0 <= i < j < listing.len() ==> listed_before(#[trigger] listing[i], #[trigger] listing[j])
    &&& forall|i: int|
        0 <= i < listing.len() ==> visible_to(#[trigger] listing[i], user_id)
            && projects.contains(listing[i])
    &&& forall|k: int|
        0 <= k < projects.len() && visible_to(#[trigger] projects[k], user_id)
            ==> listing.contains(projects[k])
}

/// Why a project cannot be created, if it cannot: its creator does not
/// exist, or the identifiers are used up.
pub open spec fn creation_refusal(db: DatabaseView, user_id: i64) -> Option<StoreError> {
    if !has_user(db.users, user_id) {
        Some(StoreError::NotFound(Entity::User))
    } else if db.next_project_id >= i64::MAX {
        Some(StoreError::StorageFailure)
    } else {
        None
    }
}

/// Whether `project` is what creating `req` for `user_id` at time `now`
/// under identifier `id` gives: in setup, without videos, and active now.
pub open spec fn is_new_project(
    project: Project,
    req: CreateProjectRequest,
    user_id: i64,
    id: i64,
    now: i64,
) -> bool {
    &&& project.project_id == id
    &&& project.name == req.name
    &&& project.description == req.description
    &&& project.created_by == user_id
    &&& project.created_at == now
    &&& project.deadline == req.deadline
    &&& project.status@ == "setup"@
    &&& project.annotation_schema is None
    &&& project.normalization_settings is None
    &&& project.quality_threshold.bits == DEFAULT_QUALITY_THRESHOLD
    &&& project.total_videos == 0
    &&& project.completed_videos == 0
    &&& project.last_activity == now
}

/// Whether an update supplies anything.
pub open spec fn supplies_any(
    name: Option<String>,
    description: Option<String>,
    deadline: Option<i64>,
    status: Option<String>,
) -> bool {
    name is Some || description is Some || deadline is Some || status is Some
}

/// The project after an update: each supplied field takes its new value,
/// the others stay, and the activity moves to `now` if anything was
/// supplied.
pub open spec fn updated_project(
    project: Project,
    name: Option<String>,
    description: Option<String>,
    deadline: Option<i64>,
    status: Option<String>,
    now: i64,
) -> Project {
    Project {
        name: match name {
            Some(n) => n,
            None => project.name,
        },
        description: match description {
            Some(d) => Some(d),
            None => project.description,
        },
        deadline: match deadline {
            Some(d) => Some(d),
            None => project.deadline,
        },
        status: match status {
            Some(s) => s,
            None => project.status,
        },
        last_activity: if supplies_any(name, description, deadline, status) {
            now
        } else {
            project.last_activity
        },
        ..project
    }
}

/// Every identifier found among `before` is found among `after`.
pub open spec fn projects_kept(before: Seq<Project>, after: Seq<Project>) -> bool {
    forall|id: i64| has_project(before, id) ==> has_project(after, id)
}

/// Adding a project keeps every identifier findable.
pub proof fn lemma_projects_kept_push(projects: Seq<Project>, project: Project)
    ensures
        projects_kept(projects, projects.push(project)),
{
    let after = projects.push(project);
    assert forall|id: i64| has_project(projects, id) implies has_project(after, id) by {
        let i = choose|i: int|
            0 <= i < projects.len() && (#[trigger] projects[i]).project_id == id;
        assert(after[i].project_id == id);
    }
}

/// Replacing a project by one with the same identifier keeps every
/// identifier findable.
pub proof fn lemma_projects_kept_update(projects: Seq<Project>, at: int, project: Project)
    requires
        0 <= at < projects.len(),
        projects[at].project_id == project.project_id,
    ensures
        projects_kept(projects, projects.update(at, project)),
{
    let after = projects.update(at, project);
    assert forall|id: i64| has_project(projects, id) implies has_project(after, id) by {
        let i = choose|i: int|
            0 <= i < projects.len() && (#[trigger] projects[i]).project_id == id;
        assert(after[i].project_id == id);
    }
}

/// A project that no video refers to has no videos.
pub proof fn lemma_counts_zero(videos: Seq<Video>, project_id: i64)
    requires
        forall|i: int| 0 <= i < videos.len() ==> (#[trigger] videos[i]).project_id != Some(
            project_id,
        ),
    ensures
        video_count(videos, project_id) == 0,
        completed_count(videos, project_id) == 0,
    decreases videos.len(),
{
    if videos.len() > 0 {
        let rest = videos.drop_last();
        assert forall|i: int| 0 <= i < rest.len() implies (#[trigger] rest[i]).project_id != Some(
            project_id,
        ) by {
            assert(rest[i] == videos[i]);
        }
        lemma_counts_zero(rest, project_id);
        assert(videos.last() == videos[videos.len() - 1]);
    }
}

/// In a well-formed store an identifier is found at one position only.
pub proof fn lemma_position_of_project(db: DatabaseView, at: int)
    requires
        db.wf(),
        0 <= at < db.projects.len(),
    ensures
        forall|k: int|
            0 <= k < db.projects.len() && (#[trigger] db.projects[k]).project_id
                == db.projects[at].project_id ==> k == at,
{
    assert forall|k: int|
        0 <= k < db.projects.len() && (#[trigger] db.projects[k]).project_id
            == db.projects[at].project_id implies k == at by {
        if k < at {
            assert(db.projects[k].project_id < db.projects[at].project_id);
        } else if at < k {
            assert(db.projects[at].project_id < db.projects[k].project_id);
        }
    }
}

fn is_visible(project: &Project, user_id: Option<i64>) -> (r: bool)
    ensures
        r == visible_to(*project, user_id),
{
    match user_id {
        Some(user) => project.created_by == user,
        None => true,
    }
}

fn comes_before(p: &Project, q: &Project) -> (r: bool)
    ensures
        r == listed_before(*p, *q),
{
    p.last_activity > q.last_activity || (p.last_activity == q.last_activity && p.project_id
        < q.project_id)
}

/// The projects that `user_id` created, or all projects when no user is
/// named, the most recently active first.
pub fn list_projects(db: &Database, user_id: Option<i64>) -> (r: Vec<Project>)
    requires
        db@.wf(),
    ensures
        is_listing(r@, db@.projects, user_id),
{
    let projects = db.projects();
    let mut listing: Vec<Project> = Vec::new();
    let ghost mut origin: Seq<int> = Seq::empty();
    let mut k: usize = 0;
    while k < projects.len()
        invariant
            k <= projects.len(),
            forall|i: int, j: int|
                0 <= i < j < projects.len() ==> (#[trigger] projects[i]).project_id < (
                #[trigger] projects[j]).project_id,
            origin.len() == listing.len(),
            forall|i: int|
                0 <= i < listing.len() ==> 0 <= #[trigger] origin[i] < k && listing[i]
                    == projects[origin[i]],
            forall|i: int, j: int|
                0 <= i < j < listing.len() ==> listed_before(
                    #[trigger] listing[i],
                    #[trigger] listing[j],
                ),
            forall|i: int| 0 <= i < listing.len() ==> visible_to(#[trigger] listing[i], user_id),
            forall|m: int|
                0 <= m < k && visible_to(#[trigger] projects[m], user_id) ==> listing@.contains(
                    projects[m],
                ),
        decreases projects.len() - k,
    {
        let project: &Project = &projects[k];
        if is_visible(project, user_id) {
            let mut pos: usize = 0;
            while pos < listing.len() && comes_before(&listing[pos], project)
                invariant
                    pos <= listing.len(),
                    forall|i: int|
                        0 <= i < pos ==> listed_before(#[trigger] listing[i], *project),
                decreases listing.len() - pos,
            {
                pos = pos + 1;
            }
            let ghost before = listing@;
            let ghost before_origin = origin;
            assert forall|j: int| pos <= j < before.len() implies listed_before(
                *project,
                #[trigger] before[j],
            ) by {
                assert(before[j] == projects[before_origin[j]]);
                assert(projects[before_origin[j]].project_id < projects[k as int].project_id);
                assert(before[pos as int] == projects[before_origin[pos as int]]);
                assert(projects[before_origin[pos as int]].project_id
                    < projects[k as int].project_id);
                if pos < j {
                    assert(listed_before(before[pos as int], before[j]));
                }
            }
            listing.insert(pos, project.clone());
            proof {
                origin = origin.insert(pos as int, k as int);
                assert forall|m: int|
                    0 <= m < k + 1 && visible_to(
                        #[trigger] projects[m],
                        user_id,
                    ) implies listing@.contains(projects[m]) by {
                    if m < k {
                        let i = choose|i: int| 0 <= i < before.len() && before[i] == projects[m];
                        if i < pos {
                            assert(listing@[i] == projects[m]);
                        } else {
                            assert(listing@[i + 1] == projects[m]);
                        }
                    } else {
                        assert(listing@[pos as int] == projects[m]);
                    }
                }
            }
        }
        k = k + 1;
    }
    proof {
        assert forall|i: int| 0 <= i < listing.len() implies db@.projects.contains(
            #[trigger] listing[i],
        ) by {
            assert(db@.projects[origin[i]] == listing[i]);
        }
    }
    listing
}

/// Creates a project for `user_id`.
///
/// Succeeds exactly when [`creation_refusal`] finds no reason against it:
/// the new project is appended under the next identifier and returned.
/// Otherwise that reason is reported and nothing is written.
pub fn create_project(db: &mut Database, request: CreateProjectRequest, user_id: i64, now: i64) -> (r:
    Result<Project, StoreError>)
    requires
        old(db)@.wf(),
    ensures
        final(db)@.wf(),
        match creation_refusal(old(db)@, user_id) {
            Some(e) => r == Err::<Project, StoreError>(e) && final(db)@ == old(db)@,
            None => r matches Ok(project) && is_new_project(
                project,
                request,
                user_id,
                old(db)@.next_project_id,
                now,
            ) && final(db)@ == (DatabaseView {
                projects: old(db)@.projects.push(project),
                next_project_id: (old(db)@.next_project_id + 1) as i64,
                ..old(db)@
            }),
        },
{
    if find_user(db.users(), user_id).is_none() {
        return Err(StoreError::NotFound(Entity::User));
    }
    if db.next_project_id() == i64::MAX {
        return Err(StoreError::StorageFailure);
    }
    let project = Project {
        project_id: db.next_project_id(),
        name: request.name,
        description: request.description,
        created_by: user_id,
        created_at: now,
        deadline: request.deadline,
        status: String::from_str("setup"),
        annotation_schema: None,
        normalization_settings: None,
        quality_threshold: Double::from_bits(DEFAULT_QUALITY_THRESHOLD),
        total_videos: 0,
        completed_videos: 0,
        last_activity: now,
    };
    let stored = project.clone();
    proof {
        let view = db@;
        assert forall|i: int| 0 <= i < view.videos.len() implies (
        #[trigger] view.videos[i]).project_id != Some(view.next_project_id) by {
            if view.videos[i].project_id == Some(view.next_project_id) {
                let k = choose|k: int|
                    0 <= k < view.projects.len() && (#[trigger] view.projects[k]).project_id
                        == view.next_project_id;
                assert(view.projects[k].project_id < view.next_project_id);
            }
        }
        lemma_counts_zero(view.videos, view.next_project_id);
        lemma_projects_kept_push(view.projects, stored);
    }
    db.append_project(stored);
    Ok(project)
}

/// The project with the given identifier.
pub fn get_project(db: &Database, project_id: i64) -> (r: Result<Project, StoreError>)
    requires
        db@.wf(),
    ensures
        !has_project(db@.projects, project_id) ==> r == Err::<Project, StoreError>(
            StoreError::NotFound(Entity::Project),
        ),
        forall|at: int|
            0 <= at < db@.projects.len() && (#[trigger] db@.projects[at]).project_id
                == project_id ==> r == Ok::<Project, StoreError>(db@.projects[at]),
{
    match find_project(db.projects(), project_id) {
        Some(at) => {
            proof {
                lemma_position_of_project(db@, at as int);
            }
            Ok(db.projects()[at].clone())
        },
        None => Err(StoreError::NotFound(Entity::Project)),
    }
}

/// Updates the supplied fields of a project and returns it as it then is.
///
/// An unknown project is refused and nothing changes. Otherwise the project
/// becomes [`updated_project`] of what it was.
pub fn update_project(
    db: &mut Database,
    project_id: i64,
    name: Option<String>,
    description: Option<String>,
    deadline: Option<i64>,
    status: Option<String>,
    now: i64,
) -> (r: Result<Project, StoreError>)
    requires
        old(db)@.wf(),
    ensures
        final(db)@.wf(),
        !has_project(old(db)@.projects, project_id) ==> final(db)@ == old(db)@ && r == Err::<
            Project,
            StoreError,
        >(StoreError::NotFound(Entity::Project)),
        forall|at: int|
            0 <= at < old(db)@.projects.len() && (#[trigger] old(db)@.projects[at]).project_id
                == project_id ==> {
                let project = updated_project(
                    old(db)@.projects[at],
                    name,
                    description,
                    deadline,
                    status,
                    now,
                );
                &&& r == Ok::<Project, StoreError>(project)
                &&& final(db)@ == (DatabaseView {
                    projects: old(db)@.projects.update(at, project),
                    ..old(db)@
                })
            },
{
    let at: usize = match find_project(db.projects(), project_id) {
        Some(at) => at,
        None => {
            return Err(StoreError::NotFound(Entity::Project));
        },
    };
    let current: &Project = &db.projects()[at];
    let any: bool = name.is_some() || description.is_some() || deadline.is_some()
        || status.is_some();
    let project = Project {
        project_id: current.project_id,
        name: match name {
            Some(n) => n,
            None => current.name.clone(),
        },
        description: match description {
            Some(d) => Some(d),
            None => copy_text(&current.description),
        },
        created_by: current.created_by,
        created_at: current.created_at,
        deadline: match deadline {
            Some(d) => Some(d),
            None => current.deadline,
        },
        status: match status {
            Some(s) => s,
            None => current.status.clone(),
        },
        annotation_schema: copy_text(&current.annotation_schema),
        normalization_settings: copy_text(&current.normalization_settings),
        quality_threshold: current.quality_threshold,
        total_videos: current.total_videos,
        completed_videos: current.completed_videos,
        last_activity: if any {
            now
        } else {
            current.last_activity
        },
    };
    let stored = project.clone();
    proof {
        lemma_position_of_project(db@, at as int);
        lemma_projects_kept_update(db@.projects, at as int, stored);
    }
    db.replace_project(at, stored);
    Ok(project)
}

/// Two listings of the same projects for the same user agree in every place
/// that both have.
pub proof fn lemma_listings_agree_at(
    a: Seq<Project>,
    b: Seq<Project>,
    projects: Seq<Project>,
    user_id: Option<i64>,
    i: int,
)
    requires
        is_listing(a, projects, user_id),
        is_listing(b, projects, user_id),
        0 <= i < a.len(),
        i < b.len(),
    ensures
        a[i] == b[i],
    decreases i,
{
    assert forall|k: int| 0 <= k < i implies a[k] == b[k] by {
        lemma_listings_agree_at(a, b, projects, user_id, k);
    }
    assert(projects.contains(a[i]));
    let ka = choose|k: int| 0 <= k < projects.len() && projects[k] == a[i];
    assert(visible_to(projects[ka], user_id));
    assert(b.contains(projects[ka]));
    let j = choose|j: int| 0 <= j < b.len() && b[j] == a[i];
    assert(projects.contains(b[i]));
    let kb = choose|k: int| 0 <= k < projects.len() && projects[k] == b[i];
    assert(visible_to(projects[kb], user_id));
    assert(a.contains(projects[kb]));
    let m = choose|m: int| 0 <= m < a.len() && a[m] == b[i];
    if j < i {
        assert(listed_before(a[j], a[i]));
    } else if m < i {
        assert(listed_before(b[m], b[i]));
    } else if j > i && m > i {
        assert(listed_before(b[i], b[j]));
        assert(listed_before(a[i], a[m]));
    }
}

/// There is only one listing: what [`is_listing`] says of a listing leaves
/// no choice.
pub proof fn listing_is_determined(
    a: Seq<Project>,
    b: Seq<Project>,
    projects: Seq<Project>,
    user_id: Option<i64>,
)
    requires
        is_listing(a, projects, user_id),
        is_listing(b, projects, user_id),
    ensures
        a == b,
{
    if a.len() < b.len() {
        lemma_no_longer_listing(a, b, projects, user_id);
    } else if b.len() < a.len() {
        lemma_no_longer_listing(b, a, projects, user_id);
    }
    assert forall|i: int| 0 <= i < a.len() implies a[i] == b[i] by {
        lemma_listings_agree_at(a, b, projects, user_id, i);
    }
    assert(a =~= b);
}

/// Of two listings of the same projects for the same user, none is longer.
pub proof fn lemma_no_longer_listing(
    a: Seq<Project>,
    b: Seq<Project>,
    projects: Seq<Project>,
    user_id: Option<i64>,
)
    requires
        is_listing(a, projects, user_id),
        is_listing(b, projects, user_id),
    ensures
        a.len() >= b.len(),
{
    if a.len() < b.len() {
        let n = a.len() as int;
        assert(projects.contains(b[n]));
        let k = choose|k: int| 0 <= k < projects.len() && projects[k] == b[n];
        assert(visible_to(projects[k], user_id));
        assert(a.contains(projects[k]));
        let m = choose|m: int| 0 <= m < a.len() && a[m] == b[n];
        lemma_listings_agree_at(a, b, projects, user_id, m);
        assert(listed_before(b[m], b[n]));
    }
}

} // verus!
