//! Credential records: the provider that looks them up and the mapping from
//! a row of the relation `users`.

use vstd::prelude::*;
use crate::db;
use crate::db::{SecretRow, SecretRowView};
use crate::outcome::{classify, from_result, Response, StoreError};

verus! {

/// What an aging field holds when no policy is set.
pub const POLICY_NOT_SET: i64 = -1;

/// What the reserved field holds: every bit set.
pub const RESERVED_UNUSED: u32 = 0xFFFF_FFFF;

/// A credential as the host resolver expects it: the hashed secret as the
/// store holds it, and an aging policy that is never set.
#[derive(Debug, Clone, PartialEq, Eq)]
pub struct Shadow {
    pub name: String,
    pub passwd: String,
    pub last_change: i64,
    pub change_min_days: i64,
    pub change_max_days: i64,
    pub change_warn_days: i64,
    pub change_inactive_days: i64,
    pub expire_date: i64,
    pub reserved: u32,
}

/// A [`Shadow`] as mathematical values.
pub struct ShadowView {
    pub name: Seq<char>,
    pub passwd: Seq<char>,
    pub last_change: int,
    pub change_min_days: int,
    pub change_max_days: int,
    pub change_warn_days: int,
    pub change_inactive_days: int,
    pub expire_date: int,
    pub reserved: int,
}

impl View for Shadow {
    type V = ShadowView;

    open spec fn view(&self) -> ShadowView {
        ShadowView {
            name: self.name@,
            passwd: self.passwd@,
            last_change: self.last_change as int,
            change_min_days: self.change_min_days as int,
            change_max_days: self.change_max_days as int,
            change_warn_days: self.change_warn_days as int,
            change_inactive_days: self.change_inactive_days as int,
            expire_date: self.expire_date as int,
            reserved: self.reserved as int,
        }
    }
}

/// The credential record that a row stands for: the row's name and hashed
/// secret, `-1` in every aging field, and all 32 bits set in the reserved one.
pub open spec fn shadow_of(row: SecretRowView) -> ShadowView {
    ShadowView {
        name: row.name,
        passwd: row.hashed_pass,
        last_change: -1,
        change_min_days: -1,
        change_max_days: -1,
        change_warn_days: -1,
        change_inactive_days: -1,
        expire_date: -1,
        reserved: 0xFFFF_FFFF,
    }
}

/// `records` holds, in order, the credential records of `rows`.
pub open spec fn shadows_of(records: Seq<Shadow>, rows: Seq<SecretRow>) -> bool {
    &&& records.len() == rows.len()
    &&& forall|i: int| 0 <= i < rows.len() ==> (#[trigger] records[i])@ == shadow_of(rows[i]@)
}

/// `r` is the outcome of a lookup of one credential whose read returned
/// `found`: the record of the row, `NotFound` where the query matched no row,
/// `Unavail` on any other failure.
pub open spec fn is_entry_outcome(r: Response<Shadow>, found: Result<SecretRow, StoreError>) -> bool {
    match found {
        Ok(row) => r matches Response::Success(s) && s@ == shadow_of(row@),
        Err(err) => r == classify::<Shadow>(Err(err)),
    }
}

/// `r` is the outcome of an enumeration whose read returned `found`: one
/// record for each row, in the rows' order, or a failure with no records.
pub open spec fn is_entries_outcome(
    r: Response<Vec<Shadow>>,
    found: Result<Vec<SecretRow>, StoreError>,
) -> bool {
    match found {
        Ok(rows) => r matches Response::Success(records) && shadows_of(records@, rows@),
        Err(err) => r == classify::<Vec<Shadow>>(Err(err)),
    }
}

impl Shadow {
    /// No aging policy is set and the reserved field is unused.
    pub open spec fn has_no_policy(&self) -> bool {
        &&& self.last_change == -1
        &&& self.change_min_days == -1
        &&& self.change_max_days == -1
        &&& self.change_warn_days == -1
        &&& self.change_inactive_days == -1
        &&& self.expire_date == -1
        &&& self.reserved == u32::MAX
    }

    /// Builds the credential record of one row.
    pub fn from_row(row: &SecretRow) -> (s: Shadow)
        ensures
            s@ == shadow_of(row@),
    {
        Shadow {
            name: row.name.clone(),
            passwd: row.hashed_pass.clone(),
            last_change: POLICY_NOT_SET,
            change_min_days: POLICY_NOT_SET,
            change_max_days: POLICY_NOT_SET,
            change_warn_days: POLICY_NOT_SET,
            change_inactive_days: POLICY_NOT_SET,
            expire_date: POLICY_NOT_SET,
            reserved: RESERVED_UNUSED,
        }
    }
}

/// The source of credential records, bound to the path of its store.
#[derive(Debug, Clone)]
pub struct SqliteShadow {
    pub path: String,
}

impl Default for SqliteShadow {
    /// The provider over the production store.
    fn default() -> (s: Self)
        ensures
            s.path@ == db::DB_PATH@,
    {
        SqliteShadow { path: db::DB_PATH.to_owned() }
    }
}

impl SqliteShadow {
    /// The provider over the store at `path`.
    pub fn new(path: String) -> (s: Self)
        ensures
            s.path == path,
    {
        SqliteShadow { path }
    }

    /// The outcome of a lookup of one credential, given what the read
    /// returned.
    pub fn entry_from(found: Result<SecretRow, StoreError>) -> (r: Response<Shadow>)
        ensures
            is_entry_outcome(r, found),
    {
        match found {
            Ok(row) => from_result(Ok(Shadow::from_row(&row))),
            Err(err) => from_result(Err(err)),
        }
    }

    /// The outcome of an enumeration, given what the read returned.
    pub fn entries_from(found: Result<Vec<SecretRow>, StoreError>) -> (r: Response<Vec<Shadow>>)
        ensures
            is_entries_outcome(r, found),
    {
        match found {
            Ok(rows) => {
                let mut records: Vec<Shadow> = Vec::new();
                let mut i: usize = 0;
                while i < rows.len()
                    invariant
                        i <= rows.len(),
                        shadows_of(records@, rows@.take(i as int)),
                    decreases rows.len() - i,
                {
                    records.push(Shadow::from_row(&rows[i]));
                    i += 1;
                }
                assert(rows@.take(i as int) =~= rows@);
                from_result(Ok(records))
            },
            Err(err) => from_result(Err(err)),
        }
    }

    /// Lists the credentials of every user of the store. Whatever the store
    /// holds, each record returned is made of the columns of one row that
    /// converted, both of them, and has no aging policy. An enumeration has
    /// no key to miss: it succeeds or the store is `Unavail`.
    pub fn get_all_entries(&self) -> (r: Response<Vec<Shadow>>)
        ensures
            !(r is NotFound),
            r matches Response::Success(records) ==> forall|i: int|
                0 <= i < records.len() ==> {
                    &&& (#[trigger] records[i]).has_no_policy()
                    &&& is_stored_record(records[i]@)
                },
    {
        let found = match db::open_result(db::open_read_only(self.path.as_str())) {
            Ok(conn) => {
                let items = db::every_row(&conn, db::SECRETS_ALL, db::read_secret);
                let ghost got = items;
                let rows = db::scan_result(items);
                proof {
                    if rows is Ok {
                        db::lemma_read_gave_values(db::read_secret, got->Ok_0@, rows->Ok_0@);
                    }
                }
                rows
            },
            Err(err) => Err(err),
        };
        let ghost read = found;
        let r = Self::entries_from(found);
        proof {
            if r is Success {
                let records = r->Success_0;
                assert forall|i: int| 0 <= i < records.len() implies {
                    &&& (#[trigger] records[i]).has_no_policy()
                    &&& is_stored_record(records[i]@)
                } by {
                    db::lemma_read_secret_gave(read->Ok_0[i]);
                    lemma_record_of_stored_row(records[i], read->Ok_0[i]);
                }
            }
        }
        r
    }

    /// Looks a credential up by name, compared exactly. Whatever the store
    /// holds, a record returned is made of the columns of one row that
    /// converted, both of them, and has no aging policy.
    pub fn get_entry_by_name(&self, name: String) -> (r: Response<Shadow>)
        ensures
            r matches Response::Success(s) ==> s.has_no_policy() && is_stored_record(s@),
    {
        let found = match db::open_result(db::open_read_only(self.path.as_str())) {
            Ok(conn) => db::read_result(
                db::first_row_by_name(&conn, db::SECRETS_BY_NAME, name.as_str(), db::read_secret),
            ),
            Err(err) => Err(err),
        };
        let ghost read = found;
        let r = Self::entry_from(found);
        proof {
            if r is Success {
                db::lemma_read_secret_gave(read->Ok_0);
                lemma_record_of_stored_row(r->Success_0, read->Ok_0);
            }
        }
        r
    }
}

/// `s` is the record of a row of the store: the row's two columns, each one
/// converted, in their places, with no aging policy.
pub open spec fn is_stored_record(s: ShadowView) -> bool {
    exists|row: SecretRowView| #[trigger] db::is_secret_row(row) && s == shadow_of(row)
}

/// The record of a row that the store gave is a stored record.
pub proof fn lemma_record_of_stored_row(s: Shadow, row: SecretRow)
    requires
        db::is_secret_row(row@),
        s@ == shadow_of(row@),
    ensures
        is_stored_record(s@),
{
}

/// The record of any row has `-1` in every aging field and every bit of the
/// 32-bit reserved field set; of the row it keeps the name and the hashed
/// secret, unchanged.
pub proof fn lemma_record_has_no_policy(r: Response<Shadow>, row: SecretRow)
    requires
        is_entry_outcome(r, Ok(row)),
    ensures
        r matches Response::Success(s) && {
            &&& s.has_no_policy()
            &&& s.reserved == !0u32
            &&& s.name@ == row.name@
            &&& s.passwd@ == row.hashed_pass@
        },
{
    assert(!0u32 == 0xFFFF_FFFFu32) by (bit_vector);
}

/// A lookup whose query matched no row gives `NotFound`, and a lookup whose
/// store could not be opened or read gives `Unavail`.
pub proof fn lemma_missing_and_failed_lookups(r: Response<Shadow>, err: StoreError)
    requires
        is_entry_outcome(r, Err(err)),
    ensures
        err == StoreError::NoRows ==> r is NotFound,
        err != StoreError::NoRows ==> r is Unavail,
{
}

/// An enumeration whose read returned `rows` gives as many records as there
/// are rows, and each of them is the record that a lookup gives when its read
/// returns that row.
pub proof fn lemma_listed_entry_is_found(r: Response<Vec<Shadow>>, rows: Vec<SecretRow>, i: int)
    requires
        is_entries_outcome(r, Ok(rows)),
        0 <= i < rows.len(),
    ensures
        r matches Response::Success(records) && records.len() == rows.len() && is_entry_outcome(
            Response::Success(records[i]),
            Ok(rows[i]),
        ),
{
}

} // verus!
