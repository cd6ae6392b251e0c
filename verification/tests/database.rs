use fall_detection::database::{following_id, Config, Database, Tables};
use fall_detection::error::StoreError;
use fall_detection::models::{User, UserPublic};
use fall_detection::password::check_password;

fn quick() -> Config {
    Config { lockout_threshold: 3, lockout_seconds: 60, hash_cost: 4 }
}

#[test]
fn fresh_store_has_exactly_one_admin() {
    let db = Database::new(42).expect("a new store can be prepared");
    let users = db.users();
    assert_eq!(users.len(), 1);
    let admin = &users[0];
    assert_eq!(admin.user_id, 1);
    assert_eq!(admin.username, "admin");
    assert_eq!(admin.email, "admin@example.com");
    assert_eq!(admin.role, "admin");
    assert_eq!(admin.full_name, "Administrator");
    assert!(admin.is_active);
    assert_eq!(admin.created_at, 42);
    assert_eq!(admin.last_active, Some(42));
    assert_eq!(admin.failed_login_attempts, 0);
    assert_eq!(admin.locked_until, None);
    assert!(!admin.must_change_password);
    assert_eq!(check_password("admin123", &admin.password_hash), Some(true));
    assert_eq!(db.config(), Config::standard());
    assert_eq!(db.next_user_id(), 2);
    assert!(db.projects().is_empty());
    assert!(db.videos().is_empty());
    assert!(db.temporal_annotations().is_empty());
    assert!(db.bbox_annotations().is_empty());
}

#[test]
fn standard_settings() {
    let c = Config::standard();
    assert_eq!(c.lockout_threshold, 5);
    assert_eq!(c.lockout_seconds, 900);
    assert_eq!(c.hash_cost, 12);
    assert!(c.is_valid());
}

#[test]
fn settings_that_cannot_be_used() {
    assert!(!Config { lockout_threshold: 0, lockout_seconds: 60, hash_cost: 4 }.is_valid());
    assert!(!Config { lockout_threshold: 1, lockout_seconds: -1, hash_cost: 4 }.is_valid());
    assert!(!Config { lockout_threshold: 1, lockout_seconds: 0, hash_cost: 3 }.is_valid());
    assert!(!Config { lockout_threshold: 1, lockout_seconds: 0, hash_cost: 32 }.is_valid());
    assert!(Config { lockout_threshold: 1, lockout_seconds: 0, hash_cost: 31 }.is_valid());
    assert!(Database::blank(Config { lockout_threshold: 0, lockout_seconds: 60, hash_cost: 4 })
        .is_none());
}

#[test]
fn preparing_twice_keeps_the_one_admin() {
    let mut db = Database::blank(quick()).unwrap();
    assert!(db.users().is_empty());
    assert_eq!(db.initialize_tables(10), Ok(()));
    let first = db.users()[0].clone();
    assert_eq!(db.initialize_tables(20), Ok(()));
    assert_eq!(db.initialize_tables(30), Ok(()));
    assert_eq!(db.users().len(), 1);
    assert_eq!(db.users()[0], first);
    assert_eq!(db.next_user_id(), 2);
    let admins = db.users().iter().filter(|u| u.username == "admin").count();
    assert_eq!(admins, 1);
}

#[test]
fn seeding_does_nothing_when_users_exist() {
    let mut db = Database::blank(quick()).unwrap();
    assert_eq!(db.seed_admin("first-hash".to_string(), 1), Ok(()));
    assert_eq!(db.seed_admin("second-hash".to_string(), 2), Ok(()));
    assert_eq!(db.users().len(), 1);
    assert_eq!(db.users()[0].password_hash, "first-hash");
    assert_eq!(db.users()[0].created_at, 1);
}

#[test]
fn seeding_fails_when_identifiers_are_used_up() {
    let mut tables = Database::blank(quick()).unwrap().into_tables();
    tables.next_user_id = i64::MAX;
    let mut db = Database::restore(tables).unwrap();
    assert_eq!(db.seed_admin("h".to_string(), 1), Err(StoreError::StorageFailure));
    assert!(db.users().is_empty());
    assert_eq!(db.initialize_tables(1), Err(StoreError::StorageFailure));
    assert!(db.users().is_empty());
}

#[test]
fn saved_tables_come_back_unchanged() {
    let mut db = Database::blank(quick()).unwrap();
    db.initialize_tables(3).unwrap();
    let admin = db.users()[0].clone();
    let tables = db.into_tables();
    assert!(tables.check());
    let back = Database::restore(tables).unwrap();
    assert_eq!(back.users().len(), 1);
    assert_eq!(back.users()[0], admin);
    assert_eq!(back.next_user_id(), 2);
    assert_eq!(back.config(), quick());
}

fn user(id: i64, name: &str, email: &str) -> User {
    User {
        user_id: id,
        username: name.to_string(),
        email: email.to_string(),
        password_hash: "h".to_string(),
        role: "annotator".to_string(),
        full_name: name.to_string(),
        is_active: true,
        created_at: 0,
        last_active: None,
        failed_login_attempts: 0,
        locked_until: None,
        password_changed_at: 0,
        must_change_password: false,
    }
}

fn with_users(users: Vec<User>) -> Tables {
    Tables::from_rows(quick(), users, vec![], vec![], vec![], vec![])
}

#[test]
fn counters_follow_the_last_row() {
    let t = with_users(vec![user(3, "a", "a@x"), user(9, "b", "b@x")]);
    assert_eq!(t.next_user_id, 10);
    assert_eq!(t.next_project_id, 1);
    assert_eq!(t.next_video_id, 1);
    assert_eq!(t.next_temporal_id, 1);
    assert_eq!(t.next_box_id, 1);
    assert!(t.check());
    assert_eq!(following_id(7), 8);
    assert_eq!(following_id(i64::MAX), i64::MAX);
}

#[test]
fn restore_refuses_rows_that_break_the_rules() {
    let shared_name = with_users(vec![user(1, "a", "a@x"), user(2, "a", "b@x")]);
    assert_eq!(Database::restore(shared_name).err(), Some(StoreError::StorageFailure));
    let shared_mail = with_users(vec![user(1, "a", "a@x"), user(2, "b", "a@x")]);
    assert!(!shared_mail.check());
    let descending = with_users(vec![user(2, "a", "a@x"), user(1, "b", "b@x")]);
    assert!(!descending.check());
    let repeated = with_users(vec![user(2, "a", "a@x"), user(2, "b", "b@x")]);
    assert!(!repeated.check());
    let zero = with_users(vec![user(0, "a", "a@x")]);
    assert!(!zero.check());
    let last = with_users(vec![user(i64::MAX, "a", "a@x")]);
    assert!(!last.check());
    let mut negative = with_users(vec![user(1, "a", "a@x")]);
    negative.users[0].failed_login_attempts = -1;
    assert!(!negative.check());
    let mut behind = with_users(vec![user(1, "a", "a@x"), user(2, "b", "b@x")]);
    behind.next_user_id = 2;
    assert!(!behind.check());
    let mut bad_settings = with_users(vec![]);
    bad_settings.config.hash_cost = 2;
    assert!(!bad_settings.check());
    let mut bad_counter = with_users(vec![]);
    bad_counter.next_box_id = 0;
    assert!(!bad_counter.check());
}

#[test]
fn public_view_drops_the_credential() {
    let mut u = user(5, "zed", "z@x");
    u.last_active = Some(17);
    let copy = u.clone();
    assert_eq!(copy, u);
    let shown = UserPublic::of_row(&u);
    let p: UserPublic = u.into();
    assert_eq!(p, shown);
    assert_eq!(p.user_id, 5);
    assert_eq!(p.username, "zed");
    assert_eq!(p.email, "z@x");
    assert_eq!(p.role, "annotator");
    assert_eq!(p.full_name, "zed");
    assert!(p.is_active);
    assert_eq!(p.created_at, 0);
    assert_eq!(p.last_active, Some(17));
}

#[test]
fn a_store_made_by_its_operations_passes_its_own_check() {
    let mut db = Database::blank(quick()).unwrap();
    assert!(db.check());
    db.initialize_tables(1).unwrap();
    assert!(db.check());
}
