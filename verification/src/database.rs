//! The store itself: five tables, the counters that hand out identifiers,
//! and the settings that govern logins.

use vstd::prelude::*;
use vstd::string::StringExecFns;
use crate::error::StoreError;
use crate::invariants::{boxes_valid, projects_valid, temporal_valid, users_valid, videos_valid};
use crate::models::{BoundingBoxAnnotation, Project, TemporalAnnotation, User, Video};
use crate::password::{bcrypt_verify, hash_for_storage, DEFAULT_COST, MAX_COST, MIN_COST};
use crate::validation::{boxes_ok, projects_ok, temporal_ok, users_ok, videos_ok};

verus! {

/// The password the bootstrap administrator starts with.
pub const DEFAULT_ADMIN_PASSWORD: &'static str = "admin123";

/// Settings of a store.
#[derive(Clone, Copy, Debug, PartialEq, Eq, Structural)]
pub struct Config {
    /// How many failed logins in a row lock an account.
    pub lockout_threshold: i64,
    /// For how many seconds a locked account stays locked.
    pub lockout_seconds: i64,
    /// The `bcrypt` work factor for new password hashes.
    pub hash_cost: u32,
}

impl Config {
    /// A threshold of at least one attempt, a lock that does not end before
    /// it begins, and a work factor that `bcrypt` accepts.
    pub open spec fn valid(self) -> bool {
        &&& self.lockout_threshold >= 1
        &&& self.lockout_seconds >= 0
        &&& MIN_COST <= self.hash_cost <= MAX_COST
    }

    /// Five attempts, a quarter of an hour, and the default work factor.
    pub open spec fn spec_standard() -> Config {
        Config { lockout_threshold: 5, lockout_seconds: 900, hash_cost: DEFAULT_COST }
    }

    /// Five attempts, a quarter of an hour, and the default work factor.
    #[verifier::when_used_as_spec(spec_standard)]
    pub fn standard() -> (r: Config)
        ensures
            r == Config::spec_standard(),
            r.valid(),
    {
        Config { lockout_threshold: 5, lockout_seconds: 900, hash_cost: DEFAULT_COST }
    }

    /// Whether the settings can be used.
    pub fn is_valid(&self) -> (r: bool)
        ensures
            r == self.valid(),
    {
        self.lockout_threshold >= 1 && self.lockout_seconds >= 0 && MIN_COST <= self.hash_cost
            && self.hash_cost <= MAX_COST
    }
}

/// The content of a store, as mathematics: each table is the sequence of its
/// rows in insertion order.
pub struct DatabaseView {
    pub config: Config,
    pub users: Seq<User>,
    pub projects: Seq<Project>,
    pub videos: Seq<Video>,
    pub temporal: Seq<TemporalAnnotation>,
    pub boxes: Seq<BoundingBoxAnnotation>,
    pub next_user_id: i64,
    pub next_project_id: i64,
    pub next_video_id: i64,
    pub next_temporal_id: i64,
    pub next_box_id: i64,
}

impl DatabaseView {
    /// The invariant of the store. Every operation expects it and keeps it.
    pub open spec fn wf(self) -> bool {
        &&& self.config.valid()
        &&& self.next_user_id >= 1
        &&& self.next_project_id >= 1
        &&& self.next_video_id >= 1
        &&& self.next_temporal_id >= 1
        &&& self.next_box_id >= 1
        &&& users_valid(self.users, self.next_user_id)
        &&& projects_valid(self.projects, self.next_project_id, self.users, self.videos)
        &&& videos_valid(self.videos, self.next_video_id, self.users, self.projects)
        &&& temporal_valid(self.temporal, self.next_temporal_id, self.users, self.videos)
        &&& boxes_valid(self.boxes, self.next_box_id, self.users, self.videos)
    }

    /// A store without rows whose counters all stand at one.
    pub open spec fn blank(config: Config) -> DatabaseView {
        DatabaseView {
            config,
            users: Seq::empty(),
            projects: Seq::empty(),
            videos: Seq::empty(),
            temporal: Seq::empty(),
            boxes: Seq::empty(),
            next_user_id: 1,
            next_project_id: 1,
            next_video_id: 1,
            next_temporal_id: 1,
            next_box_id: 1,
        }
    }
}

/// Whether `user` is the bootstrap administrator as seeded at time `now`
/// under identifier `id`.
pub open spec fn is_admin_row(user: User, id: i64, now: i64) -> bool {
    &&& user.user_id == id
    &&& user.username@ == "admin"@
    &&& user.email@ == "admin@example.com"@
    &&& user.role@ == "admin"@
    &&& user.full_name@ == "Administrator"@
    &&& user.is_active
    &&& user.created_at == now
    &&& user.last_active == Some(now)
    &&& user.failed_login_attempts == 0
    &&& user.locked_until is None
    &&& user.password_changed_at == now
    &&& !user.must_change_password
}

/// What seeding does to a store: nothing when it has users, else it adds the
/// administrator under the next identifier.
pub open spec fn seeded(before: DatabaseView, after: DatabaseView, now: i64) -> bool {
    if before.users.len() > 0 {
        after == before
    } else {
        &&& before.next_user_id < i64::MAX
        &&& after.users.len() == 1
        &&& is_admin_row(after.users[0], before.next_user_id, now)
        &&& after == (DatabaseView {
            users: after.users,
            next_user_id: (before.next_user_id + 1) as i64,
            ..before
        })
    }
}

/// The content of a store as plain values, for saving it and for bringing
/// a saved copy back. Anyone can put anything into these fields;
/// [`Database::restore`] accepts only what obeys the invariant.
#[derive(Debug)]
pub struct Tables {
    pub config: Config,
    pub users: Vec<User>,
    pub projects: Vec<Project>,
    pub videos: Vec<Video>,
    pub temporal: Vec<TemporalAnnotation>,
    pub boxes: Vec<BoundingBoxAnnotation>,
    pub next_user_id: i64,
    pub next_project_id: i64,
    pub next_video_id: i64,
    pub next_temporal_id: i64,
    pub next_box_id: i64,
}

impl View for Tables {
    type V = DatabaseView;

    open spec fn view(&self) -> DatabaseView {
        DatabaseView {
            config: self.config,
            users: self.users@,
            projects: self.projects@,
            videos: self.videos@,
            temporal: self.temporal@,
            boxes: self.boxes@,
            next_user_id: self.next_user_id,
            next_project_id: self.next_project_id,
            next_video_id: self.next_video_id,
            next_temporal_id: self.next_temporal_id,
            next_box_id: self.next_box_id,
        }
    }
}

/// The identifier that follows `last`, or `last` itself where none follows.
pub open spec fn following(last: i64) -> i64 {
    if last < i64::MAX {
        (last + 1) as i64
    } else {
        last
    }
}

/// The identifier that follows `last`, or `last` itself where none follows.
pub fn following_id(last: i64) -> (r: i64)
    ensures
        r == following(last),
{
    if last < i64::MAX {
        last + 1
    } else {
        last
    }
}

impl Tables {
    /// The counters that fit the given rows: each table hands out next the
    /// identifier that follows the one of its last row, or one if it is
    /// empty.
    pub open spec fn counters_fit(self) -> bool {
        &&& self.next_user_id == if self.users@.len() == 0 {
            1
        } else {
            following(self.users@.last().user_id)
        }
        &&& self.next_project_id == if self.projects@.len() == 0 {
            1
        } else {
            following(self.projects@.last().project_id)
        }
        &&& self.next_video_id == if self.videos@.len() == 0 {
            1
        } else {
            following(self.videos@.last().video_id)
        }
        &&& self.next_temporal_id == if self.temporal@.len() == 0 {
            1
        } else {
            following(self.temporal@.last().annotation_id)
        }
        &&& self.next_box_id == if self.boxes@.len() == 0 {
            1
        } else {
            following(self.boxes@.last().bbox_id)
        }
    }

    /// Puts rows together with the counters that fit them.
    pub fn from_rows(
        config: Config,
        users: Vec<User>,
        projects: Vec<Project>,
        videos: Vec<Video>,
        temporal: Vec<TemporalAnnotation>,
        boxes: Vec<BoundingBoxAnnotation>,
    ) -> (r: Tables)
        ensures
            r.config == config,
            r.users == users,
            r.projects == projects,
            r.videos == videos,
            r.temporal == temporal,
            r.boxes == boxes,
            r.counters_fit(),
    {
        let next_user_id: i64 = if users.len() == 0 {
            1
        } else {
            following_id(users[users.len() - 1].user_id)
        };
        let next_project_id: i64 = if projects.len() == 0 {
            1
        } else {
            following_id(projects[projects.len() - 1].project_id)
        };
        let next_video_id: i64 = if videos.len() == 0 {
            1
        } else {
            following_id(videos[videos.len() - 1].video_id)
        };
        let next_temporal_id: i64 = if temporal.len() == 0 {
            1
        } else {
            following_id(temporal[temporal.len() - 1].annotation_id)
        };
        let next_box_id: i64 = if boxes.len() == 0 {
            1
        } else {
            following_id(boxes[boxes.len() - 1].bbox_id)
        };
        Tables {
            config,
            users,
            projects,
            videos,
            temporal,
            boxes,
            next_user_id,
            next_project_id,
            next_video_id,
            next_temporal_id,
            next_box_id,
        }
    }

    /// Whether the tables obey the invariant of the store.
    pub fn check(&self) -> (r: bool)
        ensures
            r == self@.wf(),
    {
        self.config.is_valid() && self.next_user_id >= 1 && self.next_project_id >= 1
            && self.next_video_id >= 1 && self.next_temporal_id >= 1 && self.next_box_id >= 1
            && users_ok(&self.users, self.next_user_id) && projects_ok(
            &self.projects,
            self.next_project_id,
            &self.users,
            &self.videos,
        ) && videos_ok(&self.videos, self.next_video_id, &self.users, &self.projects)
            && temporal_ok(&self.temporal, self.next_temporal_id, &self.users, &self.videos)
            && boxes_ok(&self.boxes, self.next_box_id, &self.users, &self.videos)
    }
}

/// The store. Its fields are private: the tables change only through the
/// operations of this crate, each of which keeps the invariant.
pub struct Database {
    config: Config,
    users: Vec<User>,
    projects: Vec<Project>,
    videos: Vec<Video>,
    temporal: Vec<TemporalAnnotation>,
    boxes: Vec<BoundingBoxAnnotation>,
    next_user_id: i64,
    next_project_id: i64,
    next_video_id: i64,
    next_temporal_id: i64,
    next_box_id: i64,
}

impl View for Database {
    type V = DatabaseView;

    closed spec fn view(&self) -> DatabaseView {
        DatabaseView {
            config: self.config,
            users: self.users@,
            projects: self.projects@,
            videos: self.videos@,
            temporal: self.temporal@,
            boxes: self.boxes@,
            next_user_id: self.next_user_id,
            next_project_id: self.next_project_id,
            next_video_id: self.next_video_id,
            next_temporal_id: self.next_temporal_id,
            next_box_id: self.next_box_id,
        }
    }
}

impl Database {
    fn empty(config: Config) -> (db: Database)
        requires
            config.valid(),
        ensures
            db@ == DatabaseView::blank(config),
            db@.wf(),
    {
        Database {
            config,
            users: Vec::new(),
            projects: Vec::new(),
            videos: Vec::new(),
            temporal: Vec::new(),
            boxes: Vec::new(),
            next_user_id: 1,
            next_project_id: 1,
            next_video_id: 1,
            next_temporal_id: 1,
            next_box_id: 1,
        }
    }

    /// A store without rows under the given settings, or nothing if the
    /// settings cannot be used. The store has no administrator yet; see
    /// [`Database::initialize_tables`].
    pub fn blank(config: Config) -> (r: Option<Database>)
        ensures
            r is Some <==> config.valid(),
            r matches Some(db) ==> db@ == DatabaseView::blank(config) && db@.wf(),
    {
        if config.is_valid() {
            Some(Database::empty(config))
        } else {
            None
        }
    }

    /// The settings of the store.
    pub fn config(&self) -> (r: Config)
        ensures
            r == self@.config,
    {
        self.config
    }

    /// The users table.
    pub fn users(&self) -> (r: &Vec<User>)
        ensures
            r@ == self@.users,
    {
        &self.users
    }

    /// The projects table.
    pub fn projects(&self) -> (r: &Vec<Project>)
        ensures
            r@ == self@.projects,
    {
        &self.projects
    }

    /// The videos table.
    pub fn videos(&self) -> (r: &Vec<Video>)
        ensures
            r@ == self@.videos,
    {
        &self.videos
    }

    /// The temporal annotations.
    pub fn temporal_annotations(&self) -> (r: &Vec<TemporalAnnotation>)
        ensures
            r@ == self@.temporal,
    {
        &self.temporal
    }

    /// The bounding boxes.
    pub fn bbox_annotations(&self) -> (r: &Vec<BoundingBoxAnnotation>)
        ensures
            r@ == self@.boxes,
    {
        &self.boxes
    }

    /// The identifier the next user will get.
    pub fn next_user_id(&self) -> (r: i64)
        ensures
            r == self@.next_user_id,
    {
        self.next_user_id
    }

    /// The identifier the next project will get.
    pub fn next_project_id(&self) -> (r: i64)
        ensures
            r == self@.next_project_id,
    {
        self.next_project_id
    }

    /// The identifier the next video will get.
    pub fn next_video_id(&self) -> (r: i64)
        ensures
            r == self@.next_video_id,
    {
        self.next_video_id
    }

    /// The identifier the next temporal annotation will get.
    pub fn next_temporal_id(&self) -> (r: i64)
        ensures
            r == self@.next_temporal_id,
    {
        self.next_temporal_id
    }

    /// The identifier the next bounding box will get.
    pub fn next_box_id(&self) -> (r: i64)
        ensures
            r == self@.next_box_id,
    {
        self.next_box_id
    }

    /// Appends a user under the next identifier and advances the counter.
    pub(crate) fn append_user(&mut self, user: User)
        requires
            user.user_id == old(self)@.next_user_id,
            old(self)@.next_user_id < i64::MAX,
        ensures
            final(self)@ == (DatabaseView {
                users: old(self)@.users.push(user),
                next_user_id: (old(self)@.next_user_id + 1) as i64,
                ..old(self)@
            }),
    {
        self.users.push(user);
        self.next_user_id = self.next_user_id + 1;
    }

    /// Puts `user` in place of the row at `at`.
    pub(crate) fn replace_user(&mut self, at: usize, user: User)
        requires
            at < old(self)@.users.len(),
        ensures
            final(self)@ == (DatabaseView {
                users: old(self)@.users.update(at as int, user),
                ..old(self)@
            }),
    {
        self.users.set(at, user);
    }

    /// Appends a project under the next identifier and advances the counter.
    pub(crate) fn append_project(&mut self, project: Project)
        requires
            project.project_id == old(self)@.next_project_id,
            old(self)@.next_project_id < i64::MAX,
        ensures
            final(self)@ == (DatabaseView {
                projects: old(self)@.projects.push(project),
                next_project_id: (old(self)@.next_project_id + 1) as i64,
                ..old(self)@
            }),
    {
        self.projects.push(project);
        self.next_project_id = self.next_project_id + 1;
    }

    /// Puts `project` in place of the row at `at`.
    pub(crate) fn replace_project(&mut self, at: usize, project: Project)
        requires
            at < old(self)@.projects.len(),
        ensures
            final(self)@ == (DatabaseView {
                projects: old(self)@.projects.update(at as int, project),
                ..old(self)@
            }),
    {
        self.projects.set(at, project);
    }

    /// Appends a video under the next identifier and advances the counter.
    pub(crate) fn append_video(&mut self, video: Video)
        requires
            video.video_id == old(self)@.next_video_id,
            old(self)@.next_video_id < i64::MAX,
        ensures
            final(self)@ == (DatabaseView {
                videos: old(self)@.videos.push(video),
                next_video_id: (old(self)@.next_video_id + 1) as i64,
                ..old(self)@
            }),
    {
        self.videos.push(video);
        self.next_video_id = self.next_video_id + 1;
    }

    /// Appends a temporal annotation under the next identifier and advances
    /// the counter.
    pub(crate) fn append_temporal(&mut self, annotation: TemporalAnnotation)
        requires
            annotation.annotation_id == old(self)@.next_temporal_id,
            old(self)@.next_temporal_id < i64::MAX,
        ensures
            final(self)@ == (DatabaseView {
                temporal: old(self)@.temporal.push(annotation),
                next_temporal_id: (old(self)@.next_temporal_id + 1) as i64,
                ..old(self)@
            }),
    {
        self.temporal.push(annotation);
        self.next_temporal_id = self.next_temporal_id + 1;
    }

    /// Appends a bounding box under the next identifier and advances the
    /// counter.
    pub(crate) fn append_box(&mut self, annotation: BoundingBoxAnnotation)
        requires
            annotation.bbox_id == old(self)@.next_box_id,
            old(self)@.next_box_id < i64::MAX,
        ensures
            final(self)@ == (DatabaseView {
                boxes: old(self)@.boxes.push(annotation),
                next_box_id: (old(self)@.next_box_id + 1) as i64,
                ..old(self)@
            }),
    {
        self.boxes.push(annotation);
        self.next_box_id = self.next_box_id + 1;
    }

    /// Takes the temporal annotation at `at` out of its table.
    pub(crate) fn remove_temporal(&mut self, at: usize)
        requires
            at < old(self)@.temporal.len(),
        ensures
            final(self)@ == (DatabaseView {
                temporal: old(self)@.temporal.remove(at as int),
                ..old(self)@
            }),
    {
        let _ = self.temporal.remove(at);
    }

    /// Takes the bounding box at `at` out of its table.
    pub(crate) fn remove_box(&mut self, at: usize)
        requires
            at < old(self)@.boxes.len(),
        ensures
            final(self)@ == (DatabaseView {
                boxes: old(self)@.boxes.remove(at as int),
                ..old(self)@
            }),
    {
        let _ = self.boxes.remove(at);
    }

    /// Whether the store obeys its invariant. It does whenever it was made
    /// and changed by the operations of this crate alone; the check is for
    /// callers that want to see it for themselves.
    pub fn check(&self) -> (r: bool)
        ensures
            r == self@.wf(),
    {
        self.config.is_valid() && self.next_user_id >= 1 && self.next_project_id >= 1
            && self.next_video_id >= 1 && self.next_temporal_id >= 1 && self.next_box_id >= 1
            && users_ok(&self.users, self.next_user_id) && projects_ok(
            &self.projects,
            self.next_project_id,
            &self.users,
            &self.videos,
        ) && videos_ok(&self.videos, self.next_video_id, &self.users, &self.projects)
            && temporal_ok(&self.temporal, self.next_temporal_id, &self.users, &self.videos)
            && boxes_ok(&self.boxes, self.next_box_id, &self.users, &self.videos)
    }

    /// Brings back a saved copy of the tables.
    ///
    /// Succeeds exactly when the tables obey the invariant; the store then
    /// holds what they held. Tables that do not are refused as a storage
    /// failure.
    pub fn restore(tables: Tables) -> (r: Result<Database, StoreError>)
        ensures
            match r {
                Ok(db) => tables@.wf() && db@ == tables@,
                Err(e) => !tables@.wf() && e == StoreError::StorageFailure,
            },
    {
        if !tables.check() {
            return Err(StoreError::StorageFailure);
        }
        Ok(
            Database {
                config: tables.config,
                users: tables.users,
                projects: tables.projects,
                videos: tables.videos,
                temporal: tables.temporal,
                boxes: tables.boxes,
                next_user_id: tables.next_user_id,
                next_project_id: tables.next_project_id,
                next_video_id: tables.next_video_id,
                next_temporal_id: tables.next_temporal_id,
                next_box_id: tables.next_box_id,
            },
        )
    }

    /// Takes the store apart into its tables, for saving.
    pub fn into_tables(self) -> (r: Tables)
        ensures
            r@ == self@,
    {
        Tables {
            config: self.config,
            users: self.users,
            projects: self.projects,
            videos: self.videos,
            temporal: self.temporal,
            boxes: self.boxes,
            next_user_id: self.next_user_id,
            next_project_id: self.next_project_id,
            next_video_id: self.next_video_id,
            next_temporal_id: self.next_temporal_id,
            next_box_id: self.next_box_id,
        }
    }

    /// Adds the bootstrap administrator with the given password hash if the
    /// store has no user at all, and does nothing otherwise.
    ///
    /// Fails, changing nothing, only when a user is needed and the
    /// identifiers are used up.
    pub fn seed_admin(&mut self, password_hash: String, now: i64) -> (r: Result<(), StoreError>)
        requires
            old(self)@.wf(),
        ensures
            final(self)@.wf(),
            r is Ok <==> (old(self)@.users.len() > 0 || old(self)@.next_user_id < i64::MAX),
            r is Ok ==> seeded(old(self)@, final(self)@, now),
            r is Ok && old(self)@.users.len() == 0 ==> final(self)@.users[0].password_hash
                == password_hash,
            r is Err ==> r == Err::<(), StoreError>(StoreError::StorageFailure) && final(self)@
                == old(self)@,
    {
        if self.users.len() > 0 {
            return Ok(());
        }
        if self.next_user_id == i64::MAX {
            return Err(StoreError::StorageFailure);
        }
        let admin = User {
            user_id: self.next_user_id,
            username: String::from_str("admin"),
            email: String::from_str("admin@example.com"),
            password_hash,
            role: String::from_str("admin"),
            full_name: String::from_str("Administrator"),
            is_active: true,
            created_at: now,
            last_active: Some(now),
            failed_login_attempts: 0,
            locked_until: None,
            password_changed_at: now,
            must_change_password: false,
        };
        self.append_user(admin);
        proof {
            crate::invariants::lemma_users_kept_push(old(self)@.users, admin);
        }
        Ok(())
    }

    /// Prepares the store for use: makes sure that it has an administrator.
    ///
    /// On a store that already has a user this changes nothing and succeeds, so
    /// it can run at every start. On a store without users it hashes the
    /// default password and adds the administrator, whose stored credential
    /// is then a hash that the default password verifies against; it fails,
    /// changing nothing, when the password cannot be hashed or the
    /// identifiers are used up.
    pub fn initialize_tables(&mut self, now: i64) -> (r: Result<(), StoreError>)
        requires
            old(self)@.wf(),
        ensures
            final(self)@.wf(),
            old(self)@.users.len() > 0 ==> r is Ok,
            r is Ok ==> seeded(old(self)@, final(self)@, now),
            r is Ok && old(self)@.users.len() == 0 ==> bcrypt_verify(
                DEFAULT_ADMIN_PASSWORD@,
                final(self)@.users[0].password_hash@,
            ) == Some(true),
            r is Err ==> r == Err::<(), StoreError>(StoreError::StorageFailure) && final(self)@
                == old(self)@,
    {
        if self.users.len() > 0 {
            return Ok(());
        }
        match hash_for_storage(DEFAULT_ADMIN_PASSWORD, self.config.hash_cost) {
            Some(hash) => self.seed_admin(hash, now),
            None => Err(StoreError::StorageFailure),
        }
    }

    /// Opens a new store with the standard settings and prepares it.
    pub fn new(now: i64) -> (r: Result<Database, StoreError>)
        ensures
            r matches Ok(db) ==> db@.wf() && seeded(
                DatabaseView::blank(Config::standard()),
                db@,
                now,
            ) && bcrypt_verify(DEFAULT_ADMIN_PASSWORD@, db@.users[0].password_hash@) == Some(
                true,
            ),
            r matches Err(e) ==> e == StoreError::StorageFailure,
    {
        let mut db = Database::empty(Config::standard());
        match db.initialize_tables(now) {
            Ok(()) => Ok(db),
            Err(e) => Err(e),
        }
    }
}

} // verus!
