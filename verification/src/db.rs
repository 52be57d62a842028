//! Access to the record store: the rows as the store carries them, the
//! queries, and the calls into `rusqlite` that run them.
//!
//! The store is opened read-only for the length of one lookup. Which rows a
//! query gives back depends on the file on disk, so all that is claimed of a
//! query is that each value it returns was read from a row; the functions
//! that read a row's columns and map rows to records are specified exactly.

use vstd::prelude::*;
use crate::outcome::{classify, StoreError};

verus! {

/// Where the store lies unless a provider is told otherwise.
pub const DB_PATH: &'static str = "/opt/serveraccessd/server-accessd.db";

/// Every row of the relation `users`, as a user record reads it.
pub const USERS_ALL: &'static str =
    "SELECT name, uid, gid, gecos, homedir, shell, hashed_pass FROM users";

/// The rows of `users` with a given numeric user id.
pub const USERS_BY_UID: &'static str =
    "SELECT name, uid, gid, gecos, homedir, shell, hashed_pass FROM users WHERE uid = ?1";

/// The rows of `users` with a given name.
pub const USERS_BY_NAME: &'static str =
    "SELECT name, uid, gid, gecos, homedir, shell, hashed_pass FROM users WHERE name = ?1";

/// Every row of the relation `groups`.
pub const GROUPS_ALL: &'static str = "SELECT name, gid FROM groups";

/// The rows of `groups` with a given numeric group id.
pub const GROUPS_BY_GID: &'static str = "SELECT name, gid FROM groups WHERE gid = ?1";

/// The rows of `groups` with a given name.
pub const GROUPS_BY_NAME: &'static str = "SELECT name, gid FROM groups WHERE name = ?1";

/// Every row of `users`, as a credential record reads it.
pub const SECRETS_ALL: &'static str = "SELECT name, hashed_pass FROM users";

/// The rows of `users` with a given name, as a credential record reads them.
pub const SECRETS_BY_NAME: &'static str = "SELECT name, hashed_pass FROM users WHERE name = ?1";

/// `rusqlite::Connection`, carried from the open to the query and dropped,
/// which closes it, when the lookup ends.
#[verifier::external_type_specification]
#[verifier::external_body]
pub struct ExConnection(rusqlite::Connection);

/// `rusqlite::Error`, looked into only by [`is_no_rows`].
#[verifier::external_type_specification]
#[verifier::external_body]
pub struct ExError(rusqlite::Error);

/// `rusqlite::Row`, one row of a running query, read column by column.
#[verifier::external_type_specification]
#[verifier::external_body]
pub struct ExRow<'stmt>(rusqlite::Row<'stmt>);

/// The columns of a row of `users` that a user record is made of.
#[derive(Debug, Clone, PartialEq, Eq)]
pub struct UserRow {
    pub name: String,
    pub uid: u32,
    pub gid: u32,
    pub gecos: String,
    pub homedir: String,
    pub shell: String,
}

/// A [`UserRow`] as mathematical values.
pub struct UserRowView {
    pub name: Seq<char>,
    pub uid: u32,
    pub gid: u32,
    pub gecos: Seq<char>,
    pub homedir: Seq<char>,
    pub shell: Seq<char>,
}

impl View for UserRow {
    type V = UserRowView;

    open spec fn view(&self) -> UserRowView {
        UserRowView {
            name: self.name@,
            uid: self.uid,
            gid: self.gid,
            gecos: self.gecos@,
            homedir: self.homedir@,
            shell: self.shell@,
        }
    }
}

/// A row of `groups`.
#[derive(Debug, Clone, PartialEq, Eq)]
pub struct GroupRow {
    pub name: String,
    pub gid: u32,
}

/// A [`GroupRow`] as mathematical values.
pub struct GroupRowView {
    pub name: Seq<char>,
    pub gid: u32,
}

impl View for GroupRow {
    type V = GroupRowView;

    open spec fn view(&self) -> GroupRowView {
        GroupRowView { name: self.name@, gid: self.gid }
    }
}

/// The columns of a row of `users` that a credential record is made of.
#[derive(Debug, Clone, PartialEq, Eq)]
pub struct SecretRow {
    pub name: String,
    pub hashed_pass: String,
}

/// A [`SecretRow`] as mathematical values.
pub struct SecretRowView {
    pub name: Seq<char>,
    pub hashed_pass: Seq<char>,
}

impl View for SecretRow {
    type V = SecretRowView;

    open spec fn view(&self) -> SecretRowView {
        SecretRowView { name: self.name@, hashed_pass: self.hashed_pass@ }
    }
}

/// Calls `rusqlite::Connection::open_with_flags` with the one flag
/// `SQLITE_OPEN_READ_ONLY`. Whether the store opens depends on the file
/// system, so nothing is claimed of the result.
#[verifier::external_body]
pub(crate) fn open_read_only(path: &str) -> Result<rusqlite::Connection, rusqlite::Error> {
    rusqlite::Connection::open_with_flags(path, rusqlite::OpenFlags::SQLITE_OPEN_READ_ONLY)
}

/// Whether an error of the storage engine is its variant
/// `rusqlite::Error::QueryReturnedNoRows`: a query that ran and matched no
/// row.
pub uninterp spec fn error_is_no_rows(err: rusqlite::Error) -> bool;

/// Tells the variant `rusqlite::Error::QueryReturnedNoRows` from every other.
/// The answer depends on the error alone: [`error_is_no_rows`] is its name.
#[verifier::external_body]
pub(crate) fn is_no_rows(err: &rusqlite::Error) -> (b: bool)
    ensures
        b == error_is_no_rows(*err),
{
    match err {
        rusqlite::Error::QueryReturnedNoRows => true,
        _ => false,
    }
}

/// What the columns of a row give as a `String`, by position, when each is
/// taken with `rusqlite::Row::get_ref` and converted by `FromSql`: the
/// column's text, or `None` where the conversion gives an error.
pub uninterp spec fn row_texts(row: rusqlite::Row) -> Seq<Option<Seq<char>>>;

/// What the columns of a row give as a `u32`, by position, when each is
/// taken with `rusqlite::Row::get_ref` and converted by `FromSql`: the
/// column's integer, or `None` where the conversion gives an error.
pub uninterp spec fn row_ids(row: rusqlite::Row) -> Seq<Option<u32>>;

/// The text that column `idx` gives, if it gives one.
pub open spec fn text_at(texts: Seq<Option<Seq<char>>>, idx: int) -> Option<Seq<char>> {
    if 0 <= idx < texts.len() {
        texts[idx]
    } else {
        None
    }
}

/// The id that column `idx` gives, if it gives one.
pub open spec fn id_at(ids: Seq<Option<u32>>, idx: int) -> Option<u32> {
    if 0 <= idx < ids.len() {
        ids[idx]
    } else {
        None
    }
}

/// Calls `rusqlite::Row::get_ref` and converts the value with `FromSql` for
/// `String`. It gives the column's text, or an error for an index past the
/// last column and for a column that holds anything but text in valid UTF-8:
/// [`row_texts`] is the name of these answers. No such error is the
/// engine's "no rows": `get_ref` gives `InvalidColumnIndex`, the conversion
/// `FromSqlConversionFailure`.
#[verifier::external_body]
pub(crate) fn column_text(row: &rusqlite::Row<'_>, idx: usize) -> (r: Result<String, rusqlite::Error>)
    ensures
        match r {
            Ok(text) => text_at(row_texts(*row), idx as int) == Some(text@),
            Err(err) => text_at(row_texts(*row), idx as int) is None && !error_is_no_rows(err),
        },
{
    let value = row.get_ref(idx)?;
    let text: String = rusqlite::types::FromSql::column_result(value)?;
    Ok(text)
}

/// Calls `rusqlite::Row::get_ref` and converts the value with `FromSql` for
/// `u32`. It gives the column's integer, or an error for an index past the
/// last column, for a column that holds no integer and for an integer
/// outside the 32-bit unsigned range: [`row_ids`] is the name of these
/// answers. No such error is the engine's "no rows": `get_ref` gives
/// `InvalidColumnIndex`, the conversion `FromSqlConversionFailure` or
/// `IntegralValueOutOfRange`.
#[verifier::external_body]
pub(crate) fn column_id(row: &rusqlite::Row<'_>, idx: usize) -> (r: Result<u32, rusqlite::Error>)
    ensures
        match r {
            Ok(id) => id_at(row_ids(*row), idx as int) == Some(id),
            Err(err) => id_at(row_ids(*row), idx as int) is None && !error_is_no_rows(err),
        },
{
    let value = row.get_ref(idx)?;
    let id: u32 = rusqlite::types::FromSql::column_result(value)?;
    Ok(id)
}

/// The user row that the columns make, by position: name, user id, group id,
/// comment, home directory, shell. There is none unless all six convert.
pub open spec fn user_columns(texts: Seq<Option<Seq<char>>>, ids: Seq<Option<u32>>) -> Option<
    UserRowView,
> {
    if text_at(texts, 0) is Some && id_at(ids, 1) is Some && id_at(ids, 2) is Some && text_at(
        texts,
        3,
    ) is Some && text_at(texts, 4) is Some && text_at(texts, 5) is Some {
        Some(
            UserRowView {
                name: text_at(texts, 0)->Some_0,
                uid: id_at(ids, 1)->Some_0,
                gid: id_at(ids, 2)->Some_0,
                gecos: text_at(texts, 3)->Some_0,
                homedir: text_at(texts, 4)->Some_0,
                shell: text_at(texts, 5)->Some_0,
            },
        )
    } else {
        None
    }
}

/// The group row that the columns make, by position: name, group id. There
/// is none unless both convert.
pub open spec fn group_columns(texts: Seq<Option<Seq<char>>>, ids: Seq<Option<u32>>) -> Option<
    GroupRowView,
> {
    if text_at(texts, 0) is Some && id_at(ids, 1) is Some {
        Some(GroupRowView { name: text_at(texts, 0)->Some_0, gid: id_at(ids, 1)->Some_0 })
    } else {
        None
    }
}

/// The credential row that the columns make, by position: name, hashed
/// secret. There is none unless both convert.
pub open spec fn secret_columns(texts: Seq<Option<Seq<char>>>) -> Option<SecretRowView> {
    if text_at(texts, 0) is Some && text_at(texts, 1) is Some {
        Some(
            SecretRowView {
                name: text_at(texts, 0)->Some_0,
                hashed_pass: text_at(texts, 1)->Some_0,
            },
        )
    } else {
        None
    }
}

/// Reads the columns of a user row by position. The first column that does
/// not convert ends the reading with its error, which is never the engine's
/// "no rows": no row is made of a part.
pub fn read_user(row: &rusqlite::Row<'_>) -> (r: Result<UserRow, rusqlite::Error>)
    ensures
        match user_columns(row_texts(*row), row_ids(*row)) {
            Some(columns) => r matches Ok(user) && user@ == columns,
            None => r matches Err(err) && !error_is_no_rows(err),
        },
{
    Ok(
        UserRow {
            name: column_text(row, 0)?,
            uid: column_id(row, 1)?,
            gid: column_id(row, 2)?,
            gecos: column_text(row, 3)?,
            homedir: column_text(row, 4)?,
            shell: column_text(row, 5)?,
        },
    )
}

/// Reads the columns of a group row by position, all or none. A failure is
/// never the engine's "no rows".
pub fn read_group(row: &rusqlite::Row<'_>) -> (r: Result<GroupRow, rusqlite::Error>)
    ensures
        match group_columns(row_texts(*row), row_ids(*row)) {
            Some(columns) => r matches Ok(group) && group@ == columns,
            None => r matches Err(err) && !error_is_no_rows(err),
        },
{
    Ok(GroupRow { name: column_text(row, 0)?, gid: column_id(row, 1)? })
}

/// Reads the columns of a credential row by position, all or none. A failure
/// is never the engine's "no rows".
pub fn read_secret(row: &rusqlite::Row<'_>) -> (r: Result<SecretRow, rusqlite::Error>)
    ensures
        match secret_columns(row_texts(*row)) {
            Some(columns) => r matches Ok(secret) && secret@ == columns,
            None => r matches Err(err) && !error_is_no_rows(err),
        },
{
    Ok(SecretRow { name: column_text(row, 0)?, hashed_pass: column_text(row, 1)? })
}

/// `read` gave `item` for some row: `item` is one of the values that the
/// contract of `read` lets it return as a success.
pub open spec fn read_gave<T, F: Fn(&rusqlite::Row<'_>) -> Result<T, rusqlite::Error>>(
    read: F,
    item: T,
) -> bool {
    exists|row: &rusqlite::Row<'_>| call_ensures(read, (row,), Ok::<T, rusqlite::Error>(item))
}

/// `read` gave each value among `items` for some row.
pub open spec fn read_gave_each<T, F: Fn(&rusqlite::Row<'_>) -> Result<T, rusqlite::Error>>(
    read: F,
    items: Seq<Result<T, rusqlite::Error>>,
) -> bool {
    forall|i: int|
        0 <= i < items.len() ==> ((#[trigger] items[i]) matches Ok(item) ==> read_gave(read, item))
}

/// Calls `rusqlite::Connection::query_row_and_then` with `id` as the one
/// parameter and `read` as the function applied to the first row, if there
/// is one. Which row that is, and whether there is one, depends on the
/// store; a value that comes back is one that `read` gave for a row.
#[verifier::external_body]
pub(crate) fn first_row_by_id<T, F: Fn(&rusqlite::Row<'_>) -> Result<T, rusqlite::Error>>(
    conn: &rusqlite::Connection,
    sql: &str,
    id: u32,
    read: F,
) -> (r: Result<T, rusqlite::Error>)
    requires
        forall|row: &rusqlite::Row<'_>| read.requires((row,)),
    ensures
        r matches Ok(item) ==> read_gave(read, item),
{
    conn.query_row_and_then(sql, (id,), read)
}

/// Calls `rusqlite::Connection::query_row_and_then` with `name` as the one
/// parameter and `read` as the function applied to the first row, if there
/// is one. Which row that is, and whether there is one, depends on the
/// store; a value that comes back is one that `read` gave for a row.
#[verifier::external_body]
pub(crate) fn first_row_by_name<T, F: Fn(&rusqlite::Row<'_>) -> Result<T, rusqlite::Error>>(
    conn: &rusqlite::Connection,
    sql: &str,
    name: &str,
    read: F,
) -> (r: Result<T, rusqlite::Error>)
    requires
        forall|row: &rusqlite::Row<'_>| read.requires((row,)),
    ensures
        r matches Ok(item) ==> read_gave(read, item),
{
    conn.query_row_and_then(sql, (name,), read)
}

/// Calls `rusqlite::Connection::prepare` and `Statement::query_and_then`
/// without parameters, with `read` as the function applied to each row, and
/// collects what each row gave, value or error, in the order the statement
/// yields the rows. Which rows there are depends on the store; each value
/// among the results is one that `read` gave for a row.
#[verifier::external_body]
pub(crate) fn every_row<T, F: Fn(&rusqlite::Row<'_>) -> Result<T, rusqlite::Error>>(
    conn: &rusqlite::Connection,
    sql: &str,
    read: F,
) -> (r: Result<Vec<Result<T, rusqlite::Error>>, rusqlite::Error>)
    requires
        forall|row: &rusqlite::Row<'_>| read.requires((row,)),
    ensures
        r matches Ok(items) ==> read_gave_each(read, items@),
{
    let mut stmt = conn.prepare(sql)?;
    let rows = stmt.query_and_then((), read)?;
    Ok(rows.collect())
}

/// `user` is what some row gives, column by column.
pub open spec fn is_user_row(user: UserRowView) -> bool {
    exists|row: &rusqlite::Row<'_>| #[trigger]
        user_columns(row_texts(*row), row_ids(*row)) == Some(user)
}

/// `group` is what some row gives, column by column.
pub open spec fn is_group_row(group: GroupRowView) -> bool {
    exists|row: &rusqlite::Row<'_>| #[trigger]
        group_columns(row_texts(*row), row_ids(*row)) == Some(group)
}

/// `secret` is what some row gives, column by column.
pub open spec fn is_secret_row(secret: SecretRowView) -> bool {
    exists|row: &rusqlite::Row<'_>| #[trigger] secret_columns(row_texts(*row)) == Some(secret)
}

/// A value that [`read_user`] gave is what some row gives, column by column.
pub proof fn lemma_read_user_gave(user: UserRow)
    requires
        read_gave(read_user, user),
    ensures
        is_user_row(user@),
{
    let row = choose|row: &rusqlite::Row<'_>|
        call_ensures(read_user, (row,), Ok::<UserRow, rusqlite::Error>(user));
    assert(user_columns(row_texts(*row), row_ids(*row)) == Some(user@));
}

/// A value that [`read_group`] gave is what some row gives, column by column.
pub proof fn lemma_read_group_gave(group: GroupRow)
    requires
        read_gave(read_group, group),
    ensures
        is_group_row(group@),
{
    let row = choose|row: &rusqlite::Row<'_>|
        call_ensures(read_group, (row,), Ok::<GroupRow, rusqlite::Error>(group));
    assert(group_columns(row_texts(*row), row_ids(*row)) == Some(group@));
}

/// A value that [`read_secret`] gave is what some row gives, column by
/// column.
pub proof fn lemma_read_secret_gave(secret: SecretRow)
    requires
        read_gave(read_secret, secret),
    ensures
        is_secret_row(secret@),
{
    let row = choose|row: &rusqlite::Row<'_>|
        call_ensures(read_secret, (row,), Ok::<SecretRow, rusqlite::Error>(secret));
    assert(secret_columns(row_texts(*row)) == Some(secret@));
}

/// Keeps the connection of a store that opened; a store that did not is
/// `OpenFailed`, whatever the storage engine's error says.
pub fn open_result(res: Result<rusqlite::Connection, rusqlite::Error>) -> (r: Result<rusqlite::Connection, StoreError>)
    ensures
        res is Ok <==> r is Ok,
        res is Ok ==> r->Ok_0 == res->Ok_0,
        r is Err ==> r->Err_0 == StoreError::OpenFailed,
{
    match res {
        Ok(conn) => Ok(conn),
        Err(_) => Err(StoreError::OpenFailed),
    }
}

/// What a failed read stands for: `NoRows` where the engine's error is its
/// "no rows", `ReadFailed` for every other error.
pub open spec fn read_error(err: rusqlite::Error) -> StoreError {
    if error_is_no_rows(err) {
        StoreError::NoRows
    } else {
        StoreError::ReadFailed
    }
}

/// A failed read gives `NotFound` exactly where the engine's error is its
/// "no rows", and `Unavail` for every other error; it never gives a success.
pub proof fn lemma_failed_read_outcome<T>(err: rusqlite::Error)
    ensures
        classify::<T>(Err(read_error(err))) is NotFound <==> error_is_no_rows(err),
        classify::<T>(Err(read_error(err))) is Unavail <==> !error_is_no_rows(err),
{
}

/// Keeps the value of a read and replaces the storage engine's error by the
/// library's own: `NoRows` for the engine's "no rows", `ReadFailed` for every
/// other error. A failed read is never taken for a failed open.
pub fn read_result<T>(res: Result<T, rusqlite::Error>) -> (r: Result<T, StoreError>)
    ensures
        match res {
            Ok(value) => r == Ok::<T, StoreError>(value),
            Err(err) => r == Err::<T, StoreError>(read_error(err)),
        },
{
    match res {
        Ok(value) => Ok(value),
        Err(err) => Err(StoreError::of_read(is_no_rows(&err))),
    }
}

/// Every one of `items` is a value.
pub open spec fn all_ok<T, E>(items: Seq<Result<T, E>>) -> bool {
    forall|i: int| 0 <= i < items.len() ==> (#[trigger] items[i]) is Ok
}

/// `values` holds, in order, the values of `items`.
pub open spec fn values_of<T, E>(values: Seq<T>, items: Seq<Result<T, E>>) -> bool {
    &&& values.len() == items.len()
    &&& forall|i: int| 0 <= i < items.len() ==> (#[trigger] items[i]) == Ok::<T, E>(values[i])
}

/// `err` is the first error among `items`: the error at some place, with a
/// value at every place before it.
pub open spec fn is_first_error<T, E>(err: E, items: Seq<Result<T, E>>) -> bool {
    exists|at: int|
        0 <= at < items.len() && (#[trigger] items[at]) == Err::<T, E>(err) && all_ok(items.take(at))
}

/// Where `read` gave each value among `items`, and `values` holds the values
/// of `items`, `read` gave each of `values`.
pub proof fn lemma_read_gave_values<T, F: Fn(&rusqlite::Row<'_>) -> Result<T, rusqlite::Error>>(
    read: F,
    items: Seq<Result<T, rusqlite::Error>>,
    values: Seq<T>,
)
    requires
        read_gave_each(read, items),
        values_of(values, items),
    ensures
        forall|i: int| 0 <= i < values.len() ==> read_gave(read, #[trigger] values[i]),
{
    assert forall|i: int| 0 <= i < values.len() implies read_gave(read, #[trigger] values[i]) by {
        assert(items[i] == Ok::<T, rusqlite::Error>(values[i]));
    }
}

/// The items in the opposite order.
pub fn reversed<T>(items: Vec<T>) -> (r: Vec<T>)
    ensures
        r@ == items@.reverse(),
{
    let mut rest = items;
    let mut turned: Vec<T> = Vec::new();
    while rest.len() > 0
        invariant
            rest.len() <= items.len(),
            rest@ == items@.take(rest.len() as int),
            turned.len() == items.len() - rest.len(),
            forall|k: int| 0 <= k < turned.len() ==> turned[k] == items[items.len() - 1 - k],
        decreases rest.len(),
    {
        let ghost before = rest@;
        let last = rest.pop();
        match last {
            Some(item) => {
                assert(item == before[before.len() - 1]);
                turned.push(item);
            },
            None => {},
        }
        assert(rest@ =~= items@.take(rest.len() as int));
    }
    assert(turned@ =~= items@.reverse());
    turned
}

/// The values of all the rows of an enumeration, in order, if every row
/// gave one; otherwise the error of the first row that gave none. One row
/// that fails takes the whole enumeration with it: no list leaves it out.
pub fn all_or_first_error<T>(items: Vec<Result<T, rusqlite::Error>>) -> (r: Result<
    Vec<T>,
    rusqlite::Error,
>)
    ensures
        r is Ok <==> all_ok(items@),
        r matches Ok(values) ==> values_of(values@, items@),
        r matches Err(err) ==> is_first_error(err, items@),
{
    let ghost all = items@;
    let mut rest = reversed(items);
    let mut values: Vec<T> = Vec::new();
    while rest.len() > 0
        invariant
            all == items@,
            rest.len() <= all.len(),
            values.len() == all.len() - rest.len(),
            forall|k: int| 0 <= k < rest.len() ==> rest[k] == all[all.len() - 1 - k],
            values_of(values@, all.take(values.len() as int)),
        decreases rest.len(),
    {
        let ghost at = values.len() as int;
        let next = rest.pop();
        match next {
            Some(Ok(value)) => {
                assert(all[at] == Ok::<T, rusqlite::Error>(value));
                values.push(value);
                assert(values_of(values@, all.take(at + 1))) by {
                    assert forall|i: int| 0 <= i < at + 1 implies (#[trigger] all.take(at + 1)[i])
                        == Ok::<T, rusqlite::Error>(values@[i]) by {
                        if i < at {
                            assert(all.take(at)[i] == all.take(at + 1)[i]);
                        }
                    }
                }
            },
            Some(Err(err)) => {
                assert(all[at] == Err::<T, rusqlite::Error>(err));
                assert(all_ok(all.take(at)));
                assert(!all_ok(all));
                return Err(err);
            },
            None => {},
        }
    }
    assert(all.take(values.len() as int) =~= all);
    Ok(values)
}

/// Keeps the values of an enumeration that ran through. One that did not,
/// because the query failed or because a row did, is `ReadFailed` whatever
/// the error: an enumeration has no key to miss, so it is never `NoRows`.
pub fn scan_result<T>(res: Result<Vec<Result<T, rusqlite::Error>>, rusqlite::Error>) -> (r: Result<
    Vec<T>,
    StoreError,
>)
    ensures
        match res {
            Ok(items) => if all_ok(items@) {
                r matches Ok(values) && values_of(values@, items@)
            } else {
                r == Err::<Vec<T>, StoreError>(StoreError::ReadFailed)
            },
            Err(_) => r == Err::<Vec<T>, StoreError>(StoreError::ReadFailed),
        },
{
    match res {
        Ok(items) => match all_or_first_error(items) {
            Ok(values) => Ok(values),
            Err(_) => Err(StoreError::ReadFailed),
        },
        Err(_) => Err(StoreError::ReadFailed),
    }
}

} // verus!
