use rusqlite::Connection;
use server_access_nss::db::{read_group, read_secret, read_user, GroupRow, SecretRow, UserRow};

fn user(sql: &str) -> Result<UserRow, rusqlite::Error> {
    let conn = Connection::open_in_memory().expect("failed to open a store in memory");
    conn.query_row_and_then(sql, (), |row| read_user(row))
}

fn group(sql: &str) -> Result<GroupRow, rusqlite::Error> {
    let conn = Connection::open_in_memory().expect("failed to open a store in memory");
    conn.query_row_and_then(sql, (), |row| read_group(row))
}

fn secret(sql: &str) -> Result<SecretRow, rusqlite::Error> {
    let conn = Connection::open_in_memory().expect("failed to open a store in memory");
    conn.query_row_and_then(sql, (), |row| read_secret(row))
}

#[test]
fn user_columns_are_read_by_position() {
    let row = user("SELECT 'test-user', 123, 321, 'some comment', '/home/test-user', '/fake-shell', '*'");
    assert_eq!(
        Ok(UserRow {
            name: "test-user".to_string(),
            uid: 123,
            gid: 321,
            gecos: "some comment".to_string(),
            homedir: "/home/test-user".to_string(),
            shell: "/fake-shell".to_string(),
        }),
        row
    );
}

#[test]
fn user_row_needs_six_columns() {
    assert!(user("SELECT 'a', 1, 2, 'c', '/h'").is_err());
    assert!(user("SELECT 'a'").is_err());
    assert!(user("SELECT 'a', 1, 2, 'c', '/h', '/s'").is_ok());
}

#[test]
fn user_row_is_all_or_nothing() {
    assert!(user("SELECT NULL, 1, 2, 'c', '/h', '/s'").is_err());
    assert!(user("SELECT 7, 1, 2, 'c', '/h', '/s'").is_err());
    assert!(user("SELECT 'a', '1', 2, 'c', '/h', '/s'").is_err());
    assert!(user("SELECT 'a', 1, 2.5, 'c', '/h', '/s'").is_err());
    assert!(user("SELECT 'a', 1, 2, NULL, '/h', '/s'").is_err());
    assert!(user("SELECT 'a', 1, 2, 'c', x'00ff', '/s'").is_err());
    assert!(user("SELECT 'a', 1, 2, 'c', '/h', 6").is_err());
}

#[test]
fn user_ids_fit_thirty_two_bits() {
    assert!(user("SELECT 'a', -1, 2, 'c', '/h', '/s'").is_err());
    assert!(user("SELECT 'a', 1, 4294967296, 'c', '/h', '/s'").is_err());
    let row = user("SELECT 'a', 0, 4294967295, 'c', '/h', '/s'").expect("ids in range");
    assert_eq!(0, row.uid);
    assert_eq!(4294967295, row.gid);
}

#[test]
fn user_text_is_kept_as_it_is() {
    let row = user("SELECT ' Test-User ', 1, 2, '', 'h\u{e9}', '\u{65e5}\u{672c}'").expect("text columns");
    assert_eq!(" Test-User ", row.name);
    assert_eq!("", row.gecos);
    assert_eq!("h\u{e9}", row.homedir);
    assert_eq!("\u{65e5}\u{672c}", row.shell);
}

#[test]
fn group_columns_are_read_by_position() {
    assert_eq!(
        Ok(GroupRow { name: "test-group".to_string(), gid: 321 }),
        group("SELECT 'test-group', 321")
    );
    assert!(group("SELECT 321, 'test-group'").is_err());
    assert!(group("SELECT 'test-group'").is_err());
    assert!(group("SELECT 'test-group', NULL").is_err());
    assert!(group("SELECT NULL, 321").is_err());
}

#[test]
fn secret_columns_are_read_by_position() {
    assert_eq!(
        Ok(SecretRow { name: "test-user".to_string(), hashed_pass: "*".to_string() }),
        secret("SELECT 'test-user', '*'")
    );
    assert_eq!(
        Ok(SecretRow { name: "a".to_string(), hashed_pass: "b".to_string() }),
        secret("SELECT 'a', 'b', 'c'")
    );
    assert!(secret("SELECT 'test-user'").is_err());
    assert!(secret("SELECT 'test-user', NULL").is_err());
    assert!(secret("SELECT 'test-user', 12").is_err());
    assert!(secret("SELECT NULL, '*'").is_err());
}

#[test]
fn query_without_a_row_reads_nothing() {
    assert_eq!(Err(rusqlite::Error::QueryReturnedNoRows), group("SELECT 'g', 1 WHERE 1 = 0"));
}
