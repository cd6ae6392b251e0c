use fall_detection::auth::{
    change_password, check_registration, compute_lock_expiry, get_current_user, insert_user,
    login, record_login, register, store_password,
};
use fall_detection::database::{Config, Database};
use fall_detection::error::{Entity, ErrorKind, StoreError};
use fall_detection::models::{ChangePasswordRequest, LoginRequest, RegisterRequest};
use fall_detection::password::{check_password, check_weak, hash_for_storage};

fn quick() -> Config {
    Config { lockout_threshold: 3, lockout_seconds: 60, hash_cost: 4 }
}

fn store() -> Database {
    let mut db = Database::blank(quick()).expect("settings are valid");
    db.initialize_tables(1_000).expect("seeding succeeds");
    db
}

fn request(username: &str, email: &str, password: &str, full_name: &str) -> RegisterRequest {
    RegisterRequest {
        username: username.to_string(),
        email: email.to_string(),
        password: password.to_string(),
        full_name: full_name.to_string(),
        role: None,
    }
}

fn credentials(username: &str, password: &str) -> LoginRequest {
    LoginRequest { username: username.to_string(), password: password.to_string() }
}

#[test]
fn register_then_login_succeeds_and_wrong_password_is_counted() {
    let mut db = store();
    let alice = register(&mut db, request("alice", "a@x.com", "pw123456", "Alice"), 2_000)
        .expect("registration succeeds");
    assert_eq!(alice.username, "alice");
    assert_eq!(alice.email, "a@x.com");
    assert_eq!(alice.full_name, "Alice");
    assert_eq!(alice.role, "annotator");
    assert!(alice.is_active);
    assert_eq!(alice.user_id, 2);
    assert_eq!(alice.created_at, 2_000);

    let session = login(&mut db, &credentials("alice", "pw123456"), 2_100).expect("login succeeds");
    assert_eq!(session.user_id, alice.user_id);
    assert_eq!(session.last_active, Some(2_100));

    let refused = login(&mut db, &credentials("alice", "wrong"), 2_200);
    assert_eq!(refused, Err(StoreError::InvalidCredentials));
    let row = &db.users()[1];
    assert_eq!(row.username, "alice");
    assert_eq!(row.failed_login_attempts, 1);
    assert_eq!(row.locked_until, None);
    assert_eq!(row.last_active, Some(2_100));
}

#[test]
fn stored_credential_is_a_hash_of_the_password() {
    let mut db = store();
    register(&mut db, request("bob", "b@x.com", "s3cretpass", "Bob"), 5).unwrap();
    let row = &db.users()[1];
    assert_ne!(row.password_hash, "s3cretpass");
    assert_eq!(row.password_hash.len(), 60);
    assert!(row.password_hash.starts_with("$2b$04$"));
    assert_eq!(check_password("s3cretpass", &row.password_hash), Some(true));
    assert_eq!(check_password("s3cretpasS", &row.password_hash), Some(false));
    assert_eq!(check_password("s3cretpass", "s3cretpass"), None);
}

#[test]
fn hashing_refuses_a_work_factor_out_of_range() {
    assert!(hash_for_storage("whatever1", 3).is_none());
    assert!(hash_for_storage("whatever1", 32).is_none());
    let hash = hash_for_storage("whatever1", 4).expect("cost 4 is allowed");
    assert_eq!(check_password("whatever1", &hash), Some(true));
}

#[test]
fn two_hashes_of_one_password_differ_and_both_verify() {
    let first = hash_for_storage("pw123456", 4).unwrap();
    let second = hash_for_storage("pw123456", 4).unwrap();
    assert_ne!(first, second);
    assert_eq!(check_password("pw123456", &first), Some(true));
    assert_eq!(check_password("pw123456", &second), Some(true));
}

#[test]
fn weak_password_is_refused_before_anything_else() {
    let mut db = store();
    assert!(check_weak("1234567"));
    assert!(!check_weak("12345678"));
    let r = register(&mut db, request("admin", "admin@example.com", "short", "X"), 7);
    assert_eq!(r, Err(StoreError::WeakPassword));
    assert_eq!(StoreError::WeakPassword.kind(), ErrorKind::InvalidInput);
    assert_eq!(db.users().len(), 1);
}

#[test]
fn duplicate_username_and_email_are_refused() {
    let mut db = store();
    register(&mut db, request("carol", "c@x.com", "pw123456", "Carol"), 10).unwrap();
    let same_name = register(&mut db, request("carol", "other@x.com", "pw123456", "C2"), 11);
    assert_eq!(same_name, Err(StoreError::DuplicateUsername));
    let same_mail = register(&mut db, request("carol2", "c@x.com", "pw123456", "C3"), 12);
    assert_eq!(same_mail, Err(StoreError::DuplicateEmail));
    let both = register(&mut db, request("carol", "c@x.com", "pw123456", "C4"), 13);
    assert_eq!(both, Err(StoreError::DuplicateUsername));
    assert_eq!(db.users().len(), 2);
    assert_eq!(db.next_user_id(), 3);
    assert_eq!(StoreError::DuplicateUsername.kind(), ErrorKind::Duplicate);
    assert_eq!(StoreError::DuplicateEmail.kind(), ErrorKind::Duplicate);
}

#[test]
fn no_two_users_share_a_name_after_many_registrations() {
    let mut db = store();
    let names = ["u1", "u2", "u1", "u3", "u2", "admin", "u4"];
    for (i, name) in names.iter().enumerate() {
        let email = format!("{}@x.com", name);
        let _ = insert_user(&mut db, request(name, &email, "pw123456", "N"), "h".to_string(), i as i64);
    }
    let users = db.users();
    assert_eq!(users.len(), 5);
    for i in 0..users.len() {
        for j in 0..users.len() {
            if i != j {
                assert_ne!(users[i].username, users[j].username);
                assert_ne!(users[i].email, users[j].email);
                assert_ne!(users[i].user_id, users[j].user_id);
            }
        }
    }
}

#[test]
fn registration_with_a_role_keeps_it() {
    let mut db = store();
    let mut req = request("dave", "d@x.com", "pw123456", "Dave");
    req.role = Some("manager".to_string());
    assert_eq!(check_registration(&db, &req), None);
    let dave = insert_user(&mut db, req, "given-credential".to_string(), 20).unwrap();
    assert_eq!(dave.role, "manager");
    let row = &db.users()[1];
    assert_eq!(row.password_hash, "given-credential");
    assert_eq!(row.created_at, 20);
    assert_eq!(row.last_active, Some(20));
    assert_eq!(row.password_changed_at, 20);
    assert_eq!(row.failed_login_attempts, 0);
    assert!(!row.must_change_password);
}

#[test]
fn unknown_user_is_invalid_credentials() {
    let mut db = store();
    let r = login(&mut db, &credentials("nobody", "pw123456"), 5);
    assert_eq!(r, Err(StoreError::InvalidCredentials));
    assert_eq!(db.users()[0].failed_login_attempts, 0);
    assert_eq!(record_login(&mut db, 99, Some(true), 5), Err(StoreError::InvalidCredentials));
}

#[test]
fn account_locks_at_the_threshold_and_opens_when_the_lock_ends() {
    let mut db = store();
    register(&mut db, request("erin", "e@x.com", "pw123456", "Erin"), 0).unwrap();
    for k in 0..3 {
        let r = login(&mut db, &credentials("erin", "wrong-one"), 100 + k);
        assert_eq!(r, Err(StoreError::InvalidCredentials));
    }
    {
        let row = &db.users()[1];
        assert_eq!(row.failed_login_attempts, 3);
        assert_eq!(row.locked_until, Some(162));
    }
    let during = login(&mut db, &credentials("erin", "pw123456"), 161);
    assert_eq!(during, Err(StoreError::AccountLocked));
    let during_wrong = login(&mut db, &credentials("erin", "wrong-one"), 161);
    assert_eq!(during_wrong, Err(StoreError::AccountLocked));
    assert_eq!(db.users()[1].failed_login_attempts, 3);
    let after = login(&mut db, &credentials("erin", "pw123456"), 162).expect("lock has ended");
    assert_eq!(after.username, "erin");
    let row = &db.users()[1];
    assert_eq!(row.failed_login_attempts, 0);
    assert_eq!(row.locked_until, None);
    assert_eq!(row.last_active, Some(162));
}

#[test]
fn two_failures_do_not_lock_at_threshold_three() {
    let mut db = store();
    let id = db.users()[0].user_id;
    assert_eq!(record_login(&mut db, id, Some(false), 10), Err(StoreError::InvalidCredentials));
    assert_eq!(record_login(&mut db, id, Some(false), 11), Err(StoreError::InvalidCredentials));
    assert_eq!(db.users()[0].locked_until, None);
    let ok = record_login(&mut db, id, Some(true), 12).unwrap();
    assert_eq!(ok.last_active, Some(12));
    assert_eq!(db.users()[0].failed_login_attempts, 0);
}

#[test]
fn unreadable_stored_hash_is_a_storage_failure() {
    let mut db = store();
    insert_user(&mut db, request("fay", "f@x.com", "pw123456", "Fay"), "not-a-hash".to_string(), 1)
        .unwrap();
    let r = login(&mut db, &credentials("fay", "pw123456"), 2);
    assert_eq!(r, Err(StoreError::StorageFailure));
    assert_eq!(db.users()[1].failed_login_attempts, 0);
}

#[test]
fn lock_expiry_is_clamped() {
    assert_eq!(compute_lock_expiry(100, 900), 1_000);
    assert_eq!(compute_lock_expiry(i64::MAX - 5, 900), i64::MAX);
    assert_eq!(compute_lock_expiry(i64::MIN + 5, -900), i64::MIN);
    assert_eq!(compute_lock_expiry(-10, 10), 0);
}

#[test]
fn failure_counter_stops_at_its_largest_value() {
    let mut tables = store().into_tables();
    tables.users[0].failed_login_attempts = i64::MAX;
    let mut db = Database::restore(tables).unwrap();
    let id = db.users()[0].user_id;
    assert_eq!(record_login(&mut db, id, Some(false), 10), Err(StoreError::InvalidCredentials));
    assert_eq!(db.users()[0].failed_login_attempts, i64::MAX);
    assert_eq!(db.users()[0].locked_until, Some(70));
}

#[test]
fn inactive_account_is_refused_whatever_the_password() {
    let mut tables = store().into_tables();
    tables.users[0].is_active = false;
    let mut db = Database::restore(tables).unwrap();
    assert_eq!(
        login(&mut db, &credentials("admin", "admin123"), 10),
        Err(StoreError::AccountInactive)
    );
    assert_eq!(
        login(&mut db, &credentials("admin", "nonsense"), 11),
        Err(StoreError::AccountInactive)
    );
    assert_eq!(db.users()[0].failed_login_attempts, 0);
}

#[test]
fn change_password_replaces_the_credential() {
    let mut db = store();
    let id = db.users()[0].user_id;
    let req = ChangePasswordRequest {
        current_password: "admin123".to_string(),
        new_password: "better-password".to_string(),
    };
    assert_eq!(change_password(&mut db, id, &req, 500), Ok(()));
    assert_eq!(db.users()[0].password_changed_at, 500);
    assert!(!db.users()[0].must_change_password);
    assert_eq!(
        login(&mut db, &credentials("admin", "admin123"), 501),
        Err(StoreError::InvalidCredentials)
    );
    assert!(login(&mut db, &credentials("admin", "better-password"), 502).is_ok());
}

#[test]
fn change_password_refusals() {
    let mut db = store();
    let id = db.users()[0].user_id;
    let before = db.users()[0].password_hash.clone();
    let wrong = ChangePasswordRequest {
        current_password: "not-it".to_string(),
        new_password: "better-password".to_string(),
    };
    assert_eq!(change_password(&mut db, id, &wrong, 1), Err(StoreError::InvalidCredentials));
    let weak = ChangePasswordRequest {
        current_password: "admin123".to_string(),
        new_password: "short".to_string(),
    };
    assert_eq!(change_password(&mut db, id, &weak, 2), Err(StoreError::WeakPassword));
    assert_eq!(
        change_password(&mut db, 77, &weak, 3),
        Err(StoreError::NotFound(Entity::User))
    );
    assert_eq!(db.users()[0].password_hash, before);
    assert_eq!(db.users()[0].failed_login_attempts, 0);
}

#[test]
fn store_password_decides_on_what_it_is_given() {
    let mut db = store();
    let id = db.users()[0].user_id;
    let new_password = "long-enough".to_string();
    assert_eq!(
        store_password(&mut db, id, None, &new_password, Some("h".to_string()), 1),
        Err(StoreError::StorageFailure)
    );
    assert_eq!(
        store_password(&mut db, id, Some(false), &new_password, Some("h".to_string()), 1),
        Err(StoreError::InvalidCredentials)
    );
    assert_eq!(
        store_password(&mut db, id, Some(true), &"tiny".to_string(), Some("h".to_string()), 1),
        Err(StoreError::WeakPassword)
    );
    assert_eq!(
        store_password(&mut db, id, Some(true), &new_password, None, 1),
        Err(StoreError::StorageFailure)
    );
    assert_eq!(
        store_password(&mut db, id, Some(true), &new_password, Some("h2".to_string()), 9),
        Ok(())
    );
    assert_eq!(db.users()[0].password_hash, "h2");
    assert_eq!(db.users()[0].password_changed_at, 9);
}

#[test]
fn current_user_is_the_public_view() {
    let db = store();
    let admin = get_current_user(&db, 1).unwrap();
    assert_eq!(admin.username, "admin");
    assert_eq!(admin.role, "admin");
    assert_eq!(admin.email, "admin@example.com");
    assert_eq!(admin.full_name, "Administrator");
    assert_eq!(get_current_user(&db, 2), Err(StoreError::NotFound(Entity::User)));
}
