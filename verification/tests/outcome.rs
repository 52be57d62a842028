use server_access_nss::db::{open_result, read_result};
use server_access_nss::outcome::{from_result, Response, StoreError};

#[test]
fn value_is_a_success() {
    match from_result(Ok(7u32)) {
        Response::Success(value) => assert_eq!(7, value),
        other => panic!("unexpected response: {:?}", other),
    }
    match from_result(Ok(vec!["a".to_string(), "b".to_string()])) {
        Response::Success(values) => assert_eq!(vec!["a".to_string(), "b".to_string()], values),
        other => panic!("unexpected response: {:?}", other),
    }
}

#[test]
fn no_rows_is_not_found() {
    assert!(matches!(from_result::<u32>(Err(StoreError::NoRows)), Response::NotFound));
}

#[test]
fn every_other_failure_is_unavailable() {
    assert!(matches!(from_result::<u32>(Err(StoreError::OpenFailed)), Response::Unavail));
    assert!(matches!(from_result::<u32>(Err(StoreError::ReadFailed)), Response::Unavail));
}

#[test]
fn read_failure_is_told_from_no_rows() {
    assert_eq!(StoreError::NoRows, StoreError::of_read(true));
    assert_eq!(StoreError::ReadFailed, StoreError::of_read(false));
}

#[test]
fn read_result_keeps_the_value() {
    assert_eq!(Ok(5u32), read_result(Ok(5u32)));
}

#[test]
fn read_result_inspects_the_error() {
    assert_eq!(
        Err(StoreError::NoRows),
        read_result::<u32>(Err(rusqlite::Error::QueryReturnedNoRows))
    );
    assert_eq!(
        Err(StoreError::ReadFailed),
        read_result::<u32>(Err(rusqlite::Error::QueryReturnedMoreThanOneRow))
    );
    assert_eq!(
        Err(StoreError::ReadFailed),
        read_result::<u32>(Err(rusqlite::Error::InvalidColumnIndex(7)))
    );
    assert_eq!(
        Err(StoreError::ReadFailed),
        read_result::<u32>(Err(rusqlite::Error::InvalidQuery))
    );
    assert_eq!(
        Err(StoreError::ReadFailed),
        read_result::<u32>(Err(rusqlite::Error::IntegralValueOutOfRange(1, -1)))
    );
}

#[test]
fn failed_open_is_never_not_found() {
    let opened = open_result(Err(rusqlite::Error::QueryReturnedNoRows));
    assert_eq!(Some(StoreError::OpenFailed), opened.as_ref().err().copied());
    assert!(matches!(from_result(opened), Response::Unavail));

    let conn = rusqlite::Connection::open_in_memory().expect("failed to open a store in memory");
    assert!(open_result(Ok(conn)).is_ok());
}

#[test]
fn transient_read_failure_is_never_not_found() {
    let read = read_result::<u32>(Err(rusqlite::Error::InvalidQuery));
    assert!(matches!(from_result(read), Response::Unavail));
    let read = read_result::<u32>(Err(rusqlite::Error::QueryReturnedNoRows));
    assert!(matches!(from_result(read), Response::NotFound));
}
