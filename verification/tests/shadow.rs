use server_access_nss::db::SecretRow;
use server_access_nss::outcome::{Response, StoreError};
use server_access_nss::shadow::{Shadow, SqliteShadow, POLICY_NOT_SET, RESERVED_UNUSED};

const SCHEMA: &str = "
    DROP TABLE IF EXISTS users;
    DROP TABLE IF EXISTS groups;
    CREATE TABLE users (name, uid, gid, gecos, homedir, shell, hashed_pass);
    CREATE TABLE groups (name, gid);
";

const USERS: &str = "
    INSERT INTO users VALUES ('test-user', 123, 321, 'some comment', '/home/test-user', '/fake-shell', '*');
    INSERT INTO users VALUES ('second-user', 234, 321, 'some comment', '/home/second', '/fake-shell', '$6$salt$hash');
";

fn setup(test: &str, rows: &str) -> SqliteShadow {
    let path = format!("/tmp/server_access_nss_shadow_{}.db", test);
    let conn = rusqlite::Connection::open(&path).expect("failed to create test database");
    conn.execute_batch(SCHEMA).expect("failed to create test schema");
    conn.execute_batch(rows).expect("failed to create test users");
    drop(conn);
    SqliteShadow::new(path)
}

fn credential(name: &str, secret: &str) -> Shadow {
    Shadow {
        name: name.to_string(),
        passwd: secret.to_string(),
        last_change: -1,
        change_min_days: -1,
        change_max_days: -1,
        change_warn_days: -1,
        change_inactive_days: -1,
        expire_date: -1,
        reserved: 4294967295,
    }
}

#[test]
fn get_all_shadows() {
    let shadows = setup("get_all_shadows", "INSERT INTO users (name, hashed_pass) VALUES ('test-user', '*');");

    match shadows.get_all_entries() {
        Response::Success(list) => assert_eq!(1, list.len()),
        other => panic!("unexpected response type: {:?}", other),
    }
}

#[test]
fn get_existing_shadow() {
    let shadows = setup("get_existing_shadow", USERS);

    match shadows.get_entry_by_name("test-user".to_string()) {
        Response::Success(shadow) => assert_eq!("test-user", shadow.name),
        Response::NotFound => panic!("should've returned a row"),
        _ => panic!("unexpected response type"),
    }
}

#[test]
fn get_missing_shadow() {
    let shadows = setup("get_missing_shadow", USERS);

    match shadows.get_entry_by_name("misisng-user".to_string()) {
        Response::NotFound => {}
        _ => panic!("Tried to fetch a user that shouldnt exist and got something back"),
    }
}

#[test]
fn credential_keeps_the_secret_and_sets_no_policy() {
    let shadows = setup("credential_fields", USERS);

    match shadows.get_entry_by_name("second-user".to_string()) {
        Response::Success(shadow) => {
            assert_eq!(credential("second-user", "$6$salt$hash"), shadow);
            assert_eq!(-1, shadow.last_change);
            assert_eq!(-1, shadow.change_min_days);
            assert_eq!(-1, shadow.change_max_days);
            assert_eq!(-1, shadow.change_warn_days);
            assert_eq!(-1, shadow.change_inactive_days);
            assert_eq!(-1, shadow.expire_date);
            assert_eq!(!0u32, shadow.reserved);
            assert_eq!(0xFFFF_FFFF, shadow.reserved);
        }
        other => panic!("unexpected response: {:?}", other),
    }
}

#[test]
fn sentinels_have_their_values() {
    assert_eq!(-1, POLICY_NOT_SET);
    assert_eq!(u32::MAX, RESERVED_UNUSED);
}

#[test]
fn listed_credentials_are_found_one_by_one() {
    let shadows = setup("listed_credentials", USERS);

    let list = match shadows.get_all_entries() {
        Response::Success(list) => list,
        other => panic!("failed to list credentials: {:?}", other),
    };
    assert_eq!(2, list.len());
    assert!(list.contains(&credential("test-user", "*")));
    assert!(list.contains(&credential("second-user", "$6$salt$hash")));
    for shadow in list {
        match shadows.get_entry_by_name(shadow.name.clone()) {
            Response::Success(found) => assert_eq!(shadow, found),
            other => panic!("listed credential not found: {:?}", other),
        }
    }
}

#[test]
fn missing_store_is_unavailable_for_credentials() {
    let shadows = SqliteShadow::new("/nonexistent-directory/no-such-store.db".to_string());

    assert!(matches!(shadows.get_all_entries(), Response::Unavail));
    assert!(matches!(shadows.get_entry_by_name("test-user".to_string()), Response::Unavail));
}

#[test]
fn unmappable_credential_row_is_unavailable() {
    let shadows = setup(
        "unmappable_credential",
        "INSERT INTO users (name, hashed_pass) VALUES ('good', '*');
         INSERT INTO users (name, hashed_pass) VALUES ('no-secret', NULL);
         INSERT INTO users (name, hashed_pass) VALUES ('number', 12);",
    );

    assert!(matches!(shadows.get_entry_by_name("good".to_string()), Response::Success(_)));
    assert!(matches!(shadows.get_entry_by_name("no-secret".to_string()), Response::Unavail));
    assert!(matches!(shadows.get_entry_by_name("number".to_string()), Response::Unavail));
    assert!(matches!(shadows.get_all_entries(), Response::Unavail));
}

#[test]
fn default_credential_provider_reads_the_production_store() {
    assert_eq!("/opt/serveraccessd/server-accessd.db", SqliteShadow::default().path);
}

#[test]
fn credential_record_of_a_row() {
    let row = SecretRow { name: "test-user".to_string(), hashed_pass: "*".to_string() };
    assert_eq!(credential("test-user", "*"), Shadow::from_row(&row));
}

#[test]
fn credential_outcome_of_each_read_result() {
    let row = SecretRow { name: "test-user".to_string(), hashed_pass: "*".to_string() };
    match SqliteShadow::entry_from(Ok(row.clone())) {
        Response::Success(shadow) => assert_eq!(credential("test-user", "*"), shadow),
        other => panic!("unexpected response: {:?}", other),
    }
    assert!(matches!(SqliteShadow::entry_from(Err(StoreError::NoRows)), Response::NotFound));
    assert!(matches!(SqliteShadow::entry_from(Err(StoreError::OpenFailed)), Response::Unavail));
    assert!(matches!(SqliteShadow::entry_from(Err(StoreError::ReadFailed)), Response::Unavail));

    let other = SecretRow { name: "second-user".to_string(), hashed_pass: "!".to_string() };
    match SqliteShadow::entries_from(Ok(vec![row, other])) {
        Response::Success(shadows) => assert_eq!(
            vec![credential("test-user", "*"), credential("second-user", "!")],
            shadows
        ),
        other => panic!("unexpected response: {:?}", other),
    }
    assert!(matches!(SqliteShadow::entries_from(Err(StoreError::OpenFailed)), Response::Unavail));
    assert!(matches!(SqliteShadow::entries_from(Err(StoreError::ReadFailed)), Response::Unavail));
}
