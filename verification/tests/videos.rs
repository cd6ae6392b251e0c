use fall_detection::database::{Config, Database};
use fall_detection::double::Double;
use fall_detection::error::{Entity, StoreError};
use fall_detection::models::{CreateProjectRequest, VideoImport, VideoMetadata};
use fall_detection::projects::{create_project, get_project};
use fall_detection::videos::{list_videos, upload_videos};

fn store() -> Database {
    let mut db = Database::blank(Config { lockout_threshold: 3, lockout_seconds: 60, hash_cost: 4 })
        .unwrap();
    db.seed_admin("h".to_string(), 0).unwrap();
    db
}

fn d(x: f64) -> Double {
    Double::from_bits(x.to_bits())
}

fn probed(path: &str) -> VideoImport {
    VideoImport {
        path: path.to_string(),
        metadata: Some(VideoMetadata {
            resolution: Some("1920x1080".to_string()),
            framerate: Some(d(29.97)),
            duration: Some(d(12.5)),
        }),
    }
}

fn unprobed(path: &str) -> VideoImport {
    VideoImport { path: path.to_string(), metadata: None }
}

fn project(db: &mut Database, name: &str) -> i64 {
    let req = CreateProjectRequest { name: name.to_string(), description: None, deadline: None };
    create_project(db, req, 1, 0).unwrap().project_id
}

#[test]
fn upload_returns_a_row_for_each_file_even_when_probing_failed() {
    let mut db = store();
    let rows = upload_videos(&mut db, vec![probed("a.mp4"), unprobed("missing.mp4")], None, 7)
        .expect("nothing stands against the batch");
    assert_eq!(rows.len(), 2);
    assert_eq!(rows[0].filename, "a.mp4");
    assert_eq!(rows[0].resolution, Some("1920x1080".to_string()));
    assert_eq!(rows[0].framerate, Some(d(29.97)));
    assert_eq!(rows[0].duration, Some(d(12.5)));
    assert_eq!(rows[1].filename, "missing.mp4");
    assert_eq!(rows[1].resolution, None);
    assert_eq!(rows[1].framerate, None);
    assert_eq!(rows[1].duration, None);
    assert_eq!(rows[0].video_id, 1);
    assert_eq!(rows[1].video_id, 2);
    for row in rows.iter() {
        assert_eq!(row.status, "pending");
        assert!(!row.is_completed);
        assert_eq!(row.project_id, None);
        assert_eq!(row.assigned_to, None);
        assert_eq!(row.import_date, 7);
        assert_eq!(row.normalization_settings, None);
    }
    assert_eq!(db.videos().len(), 2);
    assert_eq!(db.videos()[0], rows[0]);
    assert_eq!(db.videos()[1], rows[1]);
    assert_eq!(db.next_video_id(), 3);
}

#[test]
fn partly_probed_file_keeps_what_was_found() {
    let mut db = store();
    let import = VideoImport {
        path: "b.mp4".to_string(),
        metadata: Some(VideoMetadata { resolution: None, framerate: Some(d(25.0)), duration: None }),
    };
    let rows = upload_videos(&mut db, vec![import], None, 1).unwrap();
    assert_eq!(rows[0].resolution, None);
    assert_eq!(rows[0].framerate, Some(d(25.0)));
    assert_eq!(rows[0].duration, None);
}

#[test]
fn upload_into_a_project_counts_the_videos() {
    let mut db = store();
    let first = project(&mut db, "first");
    let second = project(&mut db, "second");
    upload_videos(&mut db, vec![probed("a"), probed("b"), unprobed("c")], Some(first), 1).unwrap();
    upload_videos(&mut db, vec![probed("d")], Some(second), 2).unwrap();
    upload_videos(&mut db, vec![probed("e")], None, 3).unwrap();
    upload_videos(&mut db, vec![probed("f")], Some(first), 4).unwrap();
    let p1 = get_project(&db, first).unwrap();
    let p2 = get_project(&db, second).unwrap();
    assert_eq!(p1.total_videos, 4);
    assert_eq!(p1.completed_videos, 0);
    assert_eq!(p2.total_videos, 1);
    assert_eq!(p2.completed_videos, 0);
    assert_eq!(db.videos().len(), 6);
    for p in db.projects().iter() {
        assert!(p.completed_videos <= p.total_videos);
        let counted = db.videos().iter().filter(|v| v.project_id == Some(p.project_id)).count();
        assert_eq!(p.total_videos, counted as i64);
    }
    assert!(db.into_tables().check());
}

#[test]
fn upload_into_a_missing_project_is_refused() {
    let mut db = store();
    let r = upload_videos(&mut db, vec![probed("a")], Some(5), 1);
    assert_eq!(r, Err(StoreError::NotFound(Entity::Project)));
    assert!(db.videos().is_empty());
    assert_eq!(db.next_video_id(), 1);
}

#[test]
fn upload_is_refused_when_identifiers_do_not_suffice() {
    let mut tables = store().into_tables();
    tables.next_video_id = i64::MAX - 1;
    let mut db = Database::restore(tables).unwrap();
    let r = upload_videos(&mut db, vec![probed("a"), probed("b")], None, 1);
    assert_eq!(r, Err(StoreError::StorageFailure));
    assert!(db.videos().is_empty());
    let one = upload_videos(&mut db, vec![probed("a")], None, 1).unwrap();
    assert_eq!(one[0].video_id, i64::MAX - 1);
    assert_eq!(db.next_video_id(), i64::MAX);
}

#[test]
fn empty_batch_changes_nothing() {
    let mut db = store();
    let p = project(&mut db, "p");
    let rows = upload_videos(&mut db, vec![], Some(p), 1).unwrap();
    assert!(rows.is_empty());
    assert!(db.videos().is_empty());
    assert_eq!(get_project(&db, p).unwrap().total_videos, 0);
}

fn assigned_store() -> Database {
    let mut db = store();
    let p = project(&mut db, "p");
    upload_videos(&mut db, vec![probed("a"), probed("b")], Some(p), 1).unwrap();
    upload_videos(&mut db, vec![probed("c"), probed("d")], None, 2).unwrap();
    let mut tables = db.into_tables();
    tables.videos[0].assigned_to = Some(1);
    tables.videos[2].assigned_to = Some(1);
    Database::restore(tables).unwrap()
}

fn names(db: &Database, project: Option<i64>, user: Option<i64>, free: Option<bool>) -> Vec<String> {
    list_videos(db, project, user, free).into_iter().map(|v| v.filename).collect()
}

#[test]
fn filters_combine() {
    let db = assigned_store();
    assert_eq!(names(&db, None, None, None), vec!["a", "b", "c", "d"]);
    assert_eq!(names(&db, Some(1), None, None), vec!["a", "b"]);
    assert_eq!(names(&db, None, Some(1), None), vec!["a", "c"]);
    assert_eq!(names(&db, Some(1), Some(1), None), vec!["a"]);
    assert_eq!(names(&db, None, None, Some(true)), vec!["b", "d"]);
    assert_eq!(names(&db, Some(1), None, Some(true)), vec!["b"]);
    assert_eq!(names(&db, None, None, Some(false)), vec!["a", "b", "c", "d"]);
    assert!(names(&db, Some(2), None, None).is_empty());
    assert!(names(&db, None, Some(2), None).is_empty());
}

#[test]
fn named_assignee_wins_over_unassigned() {
    let db = assigned_store();
    assert_eq!(names(&db, None, Some(1), Some(true)), vec!["a", "c"]);
    assert_eq!(names(&db, Some(1), Some(1), Some(true)), vec!["a"]);
}

#[test]
fn restore_refuses_counters_that_disagree_with_the_videos() {
    let mut db = store();
    let p = project(&mut db, "p");
    upload_videos(&mut db, vec![probed("a")], Some(p), 1).unwrap();
    let mut more = db.into_tables();
    more.projects[0].total_videos = 2;
    assert!(!more.check());
    more.projects[0].total_videos = 1;
    more.projects[0].completed_videos = 1;
    assert!(!more.check());
    more.videos[0].is_completed = true;
    assert!(more.check());
    more.videos[0].project_id = Some(9);
    assert!(!more.check());
    more.videos[0].project_id = Some(p);
    more.videos[0].assigned_to = Some(9);
    assert!(!more.check());
}
