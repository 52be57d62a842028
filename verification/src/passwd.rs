//! User records: the provider that looks them up and the mapping from a row
//! of the relation `users`.

use vstd::prelude::*;
use crate::db;
use crate::db::{UserRow, UserRowView};
use crate::outcome::{classify, from_result, Response, StoreError};

verus! {

/// A user account as the host resolver expects it.
#[derive(Debug, Clone, PartialEq, Eq)]
pub struct Passwd {
    pub name: String,
    /// Always the placeholder `"x"`: the secret never appears here.
    pub passwd: String,
    pub uid: u32,
    pub gid: u32,
    pub gecos: String,
    pub dir: String,
    pub shell: String,
}

/// A [`Passwd`] as mathematical values.
pub struct PasswdView {
    pub name: Seq<char>,
    pub passwd: Seq<char>,
    pub uid: u32,
    pub gid: u32,
    pub gecos: Seq<char>,
    pub dir: Seq<char>,
    pub shell: Seq<char>,
}

impl View for Passwd {
    type V = PasswdView;

    open spec fn view(&self) -> PasswdView {
        PasswdView {
            name: self.name@,
            passwd: self.passwd@,
            uid: self.uid,
            gid: self.gid,
            gecos: self.gecos@,
            dir: self.dir@,
            shell: self.shell@,
        }
    }
}

/// The user record that a row stands for: the row's columns in their places,
/// and the placeholder `"x"` for the password.
pub open spec fn passwd_of(row: UserRowView) -> PasswdView {
    PasswdView {
        name: row.name,
        passwd: "x"@,
        uid: row.uid,
        gid: row.gid,
        gecos: row.gecos,
        dir: row.homedir,
        shell: row.shell,
    }
}

/// `records` holds, in order, the user records of `rows`.
pub open spec fn passwds_of(records: Seq<Passwd>, rows: Seq<UserRow>) -> bool {
    &&& records.len() == rows.len()
    &&& forall|i: int| 0 <= i < rows.len() ==> (#[trigger] records[i])@ == passwd_of(rows[i]@)
}

/// `r` is the outcome of a lookup of one user whose read returned `found`: the
/// record of the row, `NotFound` where the query matched no row, `Unavail` on
/// any other failure.
pub open spec fn is_entry_outcome(r: Response<Passwd>, found: Result<UserRow, StoreError>) -> bool {
    match found {
        Ok(row) => r matches Response::Success(p) && p@ == passwd_of(row@),
        Err(err) => r == classify::<Passwd>(Err(err)),
    }
}

/// `r` is the outcome of an enumeration whose read returned `found`: one
/// record for each row, in the rows' order, or a failure with no records.
pub open spec fn is_entries_outcome(
    r: Response<Vec<Passwd>>,
    found: Result<Vec<UserRow>, StoreError>,
) -> bool {
    match found {
        Ok(rows) => r matches Response::Success(records) && passwds_of(records@, rows@),
        Err(err) => r == classify::<Vec<Passwd>>(Err(err)),
    }
}

impl Passwd {
    /// Builds the user record of one row.
    pub fn from_row(row: &UserRow) -> (p: Passwd)
        ensures
            p@ == passwd_of(row@),
    {
        Passwd {
            name: row.name.clone(),
            passwd: "x".to_owned(),
            uid: row.uid,
            gid: row.gid,
            gecos: row.gecos.clone(),
            dir: row.homedir.clone(),
            shell: row.shell.clone(),
        }
    }
}

/// The source of user records, bound to the path of its store.
#[derive(Debug, Clone)]
pub struct SqlitePasswd {
    pub path: String,
}

impl Default for SqlitePasswd {
    /// The provider over the production store.
    fn default() -> (s: Self)
        ensures
            s.path@ == db::DB_PATH@,
    {
        SqlitePasswd { path: db::DB_PATH.to_owned() }
    }
}

impl SqlitePasswd {
    /// The provider over the store at `path`.
    pub fn new(path: String) -> (s: Self)
        ensures
            s.path == path,
    {
        SqlitePasswd { path }
    }

    /// The outcome of a lookup of one user, given what the read returned: the
    /// record of the row, `NotFound` where the query matched no row, `Unavail`
    /// on any other failure.
    pub fn entry_from(found: Result<UserRow, StoreError>) -> (r: Response<Passwd>)
        ensures
            is_entry_outcome(r, found),
    {
        match found {
            Ok(row) => from_result(Ok(Passwd::from_row(&row))),
            Err(err) => from_result(Err(err)),
        }
    }

    /// The outcome of an enumeration, given what the read returned: one
    /// record for each row, in the rows' order, or `Unavail` with no records
    /// at all where the read failed.
    pub fn entries_from(found: Result<Vec<UserRow>, StoreError>) -> (r: Response<Vec<Passwd>>)
        ensures
            is_entries_outcome(r, found),
    {
        match found {
            Ok(rows) => {
                let mut records: Vec<Passwd> = Vec::new();
                let mut i: usize = 0;
                while i < rows.len()
                    invariant
                        i <= rows.len(),
                        passwds_of(records@, rows@.take(i as int)),
                    decreases rows.len() - i,
                {
                    records.push(Passwd::from_row(&rows[i]));
                    i += 1;
                }
                assert(rows@.take(i as int) =~= rows@);
                from_result(Ok(records))
            },
            Err(err) => from_result(Err(err)),
        }
    }

    /// Lists every user of the store. Whatever the store holds, each record
    /// returned is made of the columns of one row that converted, all six of
    /// them, and carries the placeholder `"x"` for its password. An enumeration
    /// has no key to miss: it succeeds or the store is `Unavail`.
    pub fn get_all_entries(&self) -> (r: Response<Vec<Passwd>>)
        ensures
            !(r is NotFound),
            r matches Response::Success(records) ==> forall|i: int|
                0 <= i < records.len() ==> {
                    &&& (#[trigger] records[i])@.passwd == "x"@
                    &&& is_stored_record(records[i]@)
                },
    {
        let found = match db::open_result(db::open_read_only(self.path.as_str())) {
            Ok(conn) => {
                let items = db::every_row(&conn, db::USERS_ALL, db::read_user);
                let ghost got = items;
                let rows = db::scan_result(items);
                proof {
                    if rows is Ok {
                        db::lemma_read_gave_values(db::read_user, got->Ok_0@, rows->Ok_0@);
                    }
                }
                rows
            },
            Err(err) => Err(err),
        };
        let ghost read = found;
        let r = Self::entries_from(found);
        proof {
            if r is Success {
                let records = r->Success_0;
                let rows = read->Ok_0;
                assert forall|i: int| 0 <= i < records.len() implies {
                    &&& (#[trigger] records[i])@.passwd == "x"@
                    &&& is_stored_record(records[i]@)
                } by {
                    db::lemma_read_user_gave(rows[i]);
                    lemma_record_of_stored_row(records[i], rows[i]);
                }
            }
        }
        r
    }

    /// Looks a user up by numeric id. Whatever the store holds, a record
    /// returned is made of the columns of one row that converted, all six of
    /// them, and carries the placeholder `"x"` for its password.
    pub fn get_entry_by_uid(&self, uid: u32) -> (r: Response<Passwd>)
        ensures
            r matches Response::Success(p) ==> p@.passwd == "x"@ && is_stored_record(p@),
    {
        let found = match db::open_result(db::open_read_only(self.path.as_str())) {
            Ok(conn) => db::read_result(
                db::first_row_by_id(&conn, db::USERS_BY_UID, uid, db::read_user),
            ),
            Err(err) => Err(err),
        };
        let ghost read = found;
        let r = Self::entry_from(found);
        proof {
            if r is Success {
                db::lemma_read_user_gave(read->Ok_0);
                lemma_record_of_stored_row(r->Success_0, read->Ok_0);
            }
        }
        r
    }

    /// Looks a user up by name, compared exactly. Whatever the store holds, a
    /// record returned is made of the columns of one row that converted, all
    /// six of them, and carries the placeholder `"x"` for its password.
    pub fn get_entry_by_name(&self, name: String) -> (r: Response<Passwd>)
        ensures
            r matches Response::Success(p) ==> p@.passwd == "x"@ && is_stored_record(p@),
    {
        let found = match db::open_result(db::open_read_only(self.path.as_str())) {
            Ok(conn) => db::read_result(
                db::first_row_by_name(&conn, db::USERS_BY_NAME, name.as_str(), db::read_user),
            ),
            Err(err) => Err(err),
        };
        let ghost read = found;
        let r = Self::entry_from(found);
        proof {
            if r is Success {
                db::lemma_read_user_gave(read->Ok_0);
                lemma_record_of_stored_row(r->Success_0, read->Ok_0);
            }
        }
        r
    }
}

/// `p` is the record of a row of the store: the row's six columns, each one
/// converted, in their places, and the placeholder.
pub open spec fn is_stored_record(p: PasswdView) -> bool {
    exists|row: UserRowView| #[trigger] db::is_user_row(row) && p == passwd_of(row)
}

/// The record of a row that the store gave is a stored record.
pub proof fn lemma_record_of_stored_row(p: Passwd, row: UserRow)
    requires
        db::is_user_row(row@),
        p@ == passwd_of(row@),
    ensures
        is_stored_record(p@),
{
}

/// A lookup whose read returned a row gives a record with the row's name,
/// ids, comment, home directory and shell, and with the one-character
/// password `x`, whatever the store holds as the secret.
pub proof fn lemma_found_row_gives_its_fields(r: Response<Passwd>, row: UserRow)
    requires
        is_entry_outcome(r, Ok(row)),
    ensures
        r matches Response::Success(p) && {
            &&& p.name@ == row.name@
            &&& p.uid == row.uid
            &&& p.gid == row.gid
            &&& p.gecos@ == row.gecos@
            &&& p.dir@ == row.homedir@
            &&& p.shell@ == row.shell@
            &&& p.passwd@ == seq!['x']
        },
{
    reveal_strlit("x");
    assert("x"@ =~= seq!['x']);
}

/// Two lookups whose reads returned the same row, one by id and one by name,
/// give records that agree in every field.
pub proof fn lemma_same_row_same_record(
    by_key: Response<Passwd>,
    by_name: Response<Passwd>,
    row: UserRow,
)
    requires
        is_entry_outcome(by_key, Ok(row)),
        is_entry_outcome(by_name, Ok(row)),
    ensures
        by_key matches Response::Success(p) && by_name matches Response::Success(q) && p@ == q@,
{
}

/// A lookup whose query matched no row gives `NotFound`, and a lookup whose
/// store could not be opened or read gives `Unavail`: neither is ever taken
/// for the other.
pub proof fn lemma_missing_and_failed_lookups(r: Response<Passwd>, err: StoreError)
    requires
        is_entry_outcome(r, Err(err)),
    ensures
        err == StoreError::NoRows ==> r is NotFound,
        err != StoreError::NoRows ==> r is Unavail,
{
}

/// An enumeration over a store that cannot be opened or read gives `Unavail`
/// and no records; one whose query ran never gives `NotFound`.
pub proof fn lemma_failed_enumeration(
    r: Response<Vec<Passwd>>,
    found: Result<Vec<UserRow>, StoreError>,
)
    requires
        is_entries_outcome(r, found),
    ensures
        found is Ok ==> r is Success,
        found is Err && found->Err_0 != StoreError::NoRows ==> r is Unavail,
{
}

/// An enumeration whose read returned `rows` gives as many records as there
/// are rows, and each of them is the record that a lookup gives when its read
/// returns that row.
pub proof fn lemma_listed_entry_is_found(r: Response<Vec<Passwd>>, rows: Vec<UserRow>, i: int)
    requires
        is_entries_outcome(r, Ok(rows)),
        0 <= i < rows.len(),
    ensures
        r matches Response::Success(records) && records.len() == rows.len() && is_entry_outcome(
            Response::Success(records[i]),
            Ok(rows[i]),
        ),
{
}

} // verus!
