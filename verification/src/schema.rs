//! The relational schema behind the store: five tables, each created only
//! if it is missing, so that the statements can run at every start.

use vstd::prelude::*;

verus! {

/// The five tables.
#[derive(Clone, Copy, Debug, PartialEq, Eq, Structural)]
pub enum Table {
    Users,
    Projects,
    Videos,
    TemporalAnnotations,
    BboxAnnotations,
}

pub const CREATE_USERS: &'static str = "CREATE TABLE IF NOT EXISTS users (
    user_id INTEGER PRIMARY KEY AUTOINCREMENT,
    username TEXT UNIQUE NOT NULL,
    email TEXT UNIQUE NOT NULL,
    password_hash TEXT NOT NULL,
    role TEXT NOT NULL DEFAULT 'annotator',
    full_name TEXT NOT NULL,
    is_active BOOLEAN DEFAULT 1,
    created_at TEXT DEFAULT CURRENT_TIMESTAMP,
    last_active TEXT DEFAULT CURRENT_TIMESTAMP,
    failed_login_attempts INTEGER DEFAULT 0,
    locked_until TEXT,
    password_changed_at TEXT DEFAULT CURRENT_TIMESTAMP,
    must_change_password BOOLEAN DEFAULT 0
)";

pub const CREATE_PROJECTS: &'static str = "CREATE TABLE IF NOT EXISTS projects (
    project_id INTEGER PRIMARY KEY AUTOINCREMENT,
    name TEXT NOT NULL,
    description TEXT,
    created_by INTEGER NOT NULL,
    created_at TEXT DEFAULT CURRENT_TIMESTAMP,
    deadline TEXT,
    status TEXT DEFAULT 'setup',
    annotation_schema TEXT,
    normalization_settings TEXT,
    quality_threshold REAL DEFAULT 0.8,
    total_videos INTEGER DEFAULT 0,
    completed_videos INTEGER DEFAULT 0,
    last_activity TEXT DEFAULT CURRENT_TIMESTAMP,
    FOREIGN KEY (created_by) REFERENCES users (user_id)
)";

pub const CREATE_VIDEOS: &'static str = "CREATE TABLE IF NOT EXISTS videos (
    video_id INTEGER PRIMARY KEY AUTOINCREMENT,
    filename TEXT NOT NULL,
    resolution TEXT,
    framerate REAL,
    duration REAL,
    import_date TEXT DEFAULT CURRENT_TIMESTAMP,
    normalization_settings TEXT,
    status TEXT DEFAULT 'pending',
    is_completed BOOLEAN DEFAULT 0,
    project_id INTEGER,
    assigned_to INTEGER,
    FOREIGN KEY (project_id) REFERENCES projects (project_id),
    FOREIGN KEY (assigned_to) REFERENCES users (user_id)
)";

pub const CREATE_TEMPORAL_ANNOTATIONS: &'static str = "CREATE TABLE IF NOT EXISTS temporal_annotations (
    annotation_id INTEGER PRIMARY KEY AUTOINCREMENT,
    video_id INTEGER NOT NULL,
    start_time REAL NOT NULL,
    end_time REAL NOT NULL,
    start_frame INTEGER NOT NULL,
    end_frame INTEGER NOT NULL,
    label TEXT NOT NULL,
    created_by INTEGER,
    created_at TEXT DEFAULT CURRENT_TIMESTAMP,
    FOREIGN KEY (video_id) REFERENCES videos (video_id),
    FOREIGN KEY (created_by) REFERENCES users (user_id)
)";

pub const CREATE_BBOX_ANNOTATIONS: &'static str = "CREATE TABLE IF NOT EXISTS bbox_annotations (
    bbox_id INTEGER PRIMARY KEY AUTOINCREMENT,
    video_id INTEGER NOT NULL,
    frame_index INTEGER NOT NULL,
    x REAL NOT NULL,
    y REAL NOT NULL,
    width REAL NOT NULL,
    height REAL NOT NULL,
    part_label TEXT NOT NULL,
    created_by INTEGER,
    created_at TEXT DEFAULT CURRENT_TIMESTAMP,
    FOREIGN KEY (video_id) REFERENCES videos (video_id),
    FOREIGN KEY (created_by) REFERENCES users (user_id)
)";

impl Table {
    /// The place of the table in the order of creation, counted from zero.
    pub open spec fn position(self) -> int {
        match self {
            Table::Users => 0,
            Table::Projects => 1,
            Table::Videos => 2,
            Table::TemporalAnnotations => 3,
            Table::BboxAnnotations => 4,
        }
    }

    /// Whether rows of this table refer to rows of `other`.
    pub open spec fn refers_to(self, other: Table) -> bool {
        match self {
            Table::Users => false,
            Table::Projects => other == Table::Users,
            Table::Videos => other == Table::Projects || other == Table::Users,
            Table::TemporalAnnotations => other == Table::Videos || other == Table::Users,
            Table::BboxAnnotations => other == Table::Videos || other == Table::Users,
        }
    }

    /// The name of the table.
    pub open spec fn spec_name(self) -> Seq<char> {
        match self {
            Table::Users => "users"@,
            Table::Projects => "projects"@,
            Table::Videos => "videos"@,
            Table::TemporalAnnotations => "temporal_annotations"@,
            Table::BboxAnnotations => "bbox_annotations"@,
        }
    }

    /// The statement that creates the table if it is missing.
    pub open spec fn spec_create_statement(self) -> Seq<char> {
        match self {
            Table::Users => CREATE_USERS@,
            Table::Projects => CREATE_PROJECTS@,
            Table::Videos => CREATE_VIDEOS@,
            Table::TemporalAnnotations => CREATE_TEMPORAL_ANNOTATIONS@,
            Table::BboxAnnotations => CREATE_BBOX_ANNOTATIONS@,
        }
    }

    /// The name of the table.
    pub fn name(self) -> (r: &'static str)
        ensures
            r@ == self.spec_name(),
    {
        match self {
            Table::Users => "users",
            Table::Projects => "projects",
            Table::Videos => "videos",
            Table::TemporalAnnotations => "temporal_annotations",
            Table::BboxAnnotations => "bbox_annotations",
        }
    }

    /// The statement that creates the table if it is missing.
    pub fn create_statement(self) -> (r: &'static str)
        ensures
            r@ == self.spec_create_statement(),
    {
        match self {
            Table::Users => CREATE_USERS,
            Table::Projects => CREATE_PROJECTS,
            Table::Videos => CREATE_VIDEOS,
            Table::TemporalAnnotations => CREATE_TEMPORAL_ANNOTATIONS,
            Table::BboxAnnotations => CREATE_BBOX_ANNOTATIONS,
        }
    }
}

/// The tables in the order in which they are created.
pub fn tables() -> (r: Vec<Table>)
    ensures
        r@.len() == 5,
        forall|i: int| 0 <= i < 5 ==> (#[trigger] r@[i]).position() == i,
{
    let mut all: Vec<Table> = Vec::new();
    all.push(Table::Users);
    all.push(Table::Projects);
    all.push(Table::Videos);
    all.push(Table::TemporalAnnotations);
    all.push(Table::BboxAnnotations);
    all
}

/// A table is created after every table it refers to.
pub proof fn referenced_tables_come_first(table: Table, other: Table)
    requires
        table.refers_to(other),
    ensures
        other.position() < table.position(),
{
}

} // verus!
