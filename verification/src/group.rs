//! Group records: the provider that looks them up and the mapping from a row
//! of the relation `groups`.

use vstd::prelude::*;
use crate::db;
use crate::db::{GroupRow, GroupRowView};
use crate::outcome::{classify, from_result, Response, StoreError};

verus! {

/// A group as the host resolver expects it.
#[derive(Debug, Clone, PartialEq, Eq)]
pub struct Group {
    pub name: String,
    /// Always empty.
    pub passwd: String,
    pub gid: u32,
    /// Always empty: the store does not model membership.
    pub members: Vec<String>,
}

/// A [`Group`] as mathematical values.
pub struct GroupView {
    pub name: Seq<char>,
    pub passwd: Seq<char>,
    pub gid: u32,
    pub members: Seq<Seq<char>>,
}

impl View for Group {
    type V = GroupView;

    open spec fn view(&self) -> GroupView {
        GroupView {
            name: self.name@,
            passwd: self.passwd@,
            gid: self.gid,
            members: self.members@.map_values(|member: String| member@),
        }
    }
}

/// The group record that a row stands for: the row's name and id, an empty
/// password and no members.
pub open spec fn group_of(row: GroupRowView) -> GroupView {
    GroupView { name: row.name, passwd: Seq::empty(), gid: row.gid, members: Seq::empty() }
}

/// `records` holds, in order, the group records of `rows`.
pub open spec fn groups_of(records: Seq<Group>, rows: Seq<GroupRow>) -> bool {
    &&& records.len() == rows.len()
    &&& forall|i: int| 0 <= i < rows.len() ==> (#[trigger] records[i])@ == group_of(rows[i]@)
}

/// `r` is the outcome of a lookup of one group whose read returned `found`:
/// the record of the row, `NotFound` where the query matched no row,
/// `Unavail` on any other failure.
pub open spec fn is_entry_outcome(r: Response<Group>, found: Result<GroupRow, StoreError>) -> bool {
    match found {
        Ok(row) => r matches Response::Success(g) && g@ == group_of(row@),
        Err(err) => r == classify::<Group>(Err(err)),
    }
}

/// `r` is the outcome of an enumeration whose read returned `found`: one
/// record for each row, in the rows' order, or a failure with no records.
pub open spec fn is_entries_outcome(
    r: Response<Vec<Group>>,
    found: Result<Vec<GroupRow>, StoreError>,
) -> bool {
    match found {
        Ok(rows) => r matches Response::Success(records) && groups_of(records@, rows@),
        Err(err) => r == classify::<Vec<Group>>(Err(err)),
    }
}

impl Group {
    /// Builds the group record of one row.
    pub fn from_row(row: &GroupRow) -> (g: Group)
        ensures
            g@ == group_of(row@),
    {
        let g = Group {
            name: row.name.clone(),
            gid: row.gid,
            passwd: String::new(),
            members: Vec::new(),
        };
        assert(g@.members =~= Seq::empty());
        g
    }
}

/// The source of group records, bound to the path of its store.
#[derive(Debug, Clone)]
pub struct SqliteGroup {
    pub path: String,
}

impl Default for SqliteGroup {
    /// The provider over the production store.
    fn default() -> (s: Self)
        ensures
            s.path@ == db::DB_PATH@,
    {
        SqliteGroup { path: db::DB_PATH.to_owned() }
    }
}

impl SqliteGroup {
    /// The provider over the store at `path`.
    pub fn new(path: String) -> (s: Self)
        ensures
            s.path == path,
    {
        SqliteGroup { path }
    }

    /// The outcome of a lookup of one group, given what the read returned.
    pub fn entry_from(found: Result<GroupRow, StoreError>) -> (r: Response<Group>)
        ensures
            is_entry_outcome(r, found),
    {
        match found {
            Ok(row) => from_result(Ok(Group::from_row(&row))),
            Err(err) => from_result(Err(err)),
        }
    }

    /// The outcome of an enumeration, given what the read returned.
    pub fn entries_from(found: Result<Vec<GroupRow>, StoreError>) -> (r: Response<Vec<Group>>)
        ensures
            is_entries_outcome(r, found),
    {
        match found {
            Ok(rows) => {
                let mut records: Vec<Group> = Vec::new();
                let mut i: usize = 0;
                while i < rows.len()
                    invariant
                        i <= rows.len(),
                        groups_of(records@, rows@.take(i as int)),
                    decreases rows.len() - i,
                {
                    records.push(Group::from_row(&rows[i]));
                    i += 1;
                }
                assert(rows@.take(i as int) =~= rows@);
                from_result(Ok(records))
            },
            Err(err) => from_result(Err(err)),
        }
    }

    /// Lists every group of the store. Whatever the store holds, each record
    /// returned is made of the columns of one row that converted, both of
    /// them, and has an empty password and no members. An enumeration has no
    /// key to miss: it succeeds or the store is `Unavail`.
    pub fn get_all_entries(&self) -> (r: Response<Vec<Group>>)
        ensures
            !(r is NotFound),
            r matches Response::Success(records) ==> forall|i: int|
                0 <= i < records.len() ==> {
                    &&& (#[trigger] records[i]).members@.len() == 0
                    &&& records[i].passwd@.len() == 0
                    &&& is_stored_record(records[i]@)
                },
    {
        let found = match db::open_result(db::open_read_only(self.path.as_str())) {
            Ok(conn) => {
                let items = db::every_row(&conn, db::GROUPS_ALL, db::read_group);
                let ghost got = items;
                let rows = db::scan_result(items);
                proof {
                    if rows is Ok {
                        db::lemma_read_gave_values(db::read_group, got->Ok_0@, rows->Ok_0@);
                    }
                }
                rows
            },
            Err(err) => Err(err),
        };
        let ghost read = found;
        let r = Self::entries_from(found);
        proof {
            if r is Success {
                let records = r->Success_0;
                assert forall|i: int| 0 <= i < records.len() implies {
                    &&& (#[trigger] records[i]).members@.len() == 0
                    &&& records[i].passwd@.len() == 0
                    &&& is_stored_record(records[i]@)
                } by {
                    lemma_group_is_bare(records[i], read->Ok_0[i]);
                    db::lemma_read_group_gave(read->Ok_0[i]);
                    lemma_record_of_stored_row(records[i], read->Ok_0[i]);
                }
            }
        }
        r
    }

    /// Looks a group up by numeric id. Whatever the store holds, a record
    /// returned is made of the columns of one row that converted, both of
    /// them, and has an empty password and no members.
    pub fn get_entry_by_gid(&self, gid: u32) -> (r: Response<Group>)
        ensures
            r matches Response::Success(g) ==> {
                &&& g.members@.len() == 0
                &&& g.passwd@.len() == 0
                &&& is_stored_record(g@)
            },
    {
        let found = match db::open_result(db::open_read_only(self.path.as_str())) {
            Ok(conn) => db::read_result(
                db::first_row_by_id(&conn, db::GROUPS_BY_GID, gid, db::read_group),
            ),
            Err(err) => Err(err),
        };
        let ghost read = found;
        let r = Self::entry_from(found);
        proof {
            if r is Success {
                lemma_group_is_bare(r->Success_0, read->Ok_0);
                db::lemma_read_group_gave(read->Ok_0);
                lemma_record_of_stored_row(r->Success_0, read->Ok_0);
            }
        }
        r
    }

    /// Looks a group up by name, compared exactly. Whatever the store holds,
    /// a record returned is made of the columns of one row that converted,
    /// both of them, and has an empty password and no members.
    pub fn get_entry_by_name(&self, name: String) -> (r: Response<Group>)
        ensures
            r matches Response::Success(g) ==> {
                &&& g.members@.len() == 0
                &&& g.passwd@.len() == 0
                &&& is_stored_record(g@)
            },
    {
        let found = match db::open_result(db::open_read_only(self.path.as_str())) {
            Ok(conn) => db::read_result(
                db::first_row_by_name(&conn, db::GROUPS_BY_NAME, name.as_str(), db::read_group),
            ),
            Err(err) => Err(err),
        };
        let ghost read = found;
        let r = Self::entry_from(found);
        proof {
            if r is Success {
                lemma_group_is_bare(r->Success_0, read->Ok_0);
                db::lemma_read_group_gave(read->Ok_0);
                lemma_record_of_stored_row(r->Success_0, read->Ok_0);
            }
        }
        r
    }
}

/// `g` is the record of a row of the store: the row's two columns, each one
/// converted, in their places, with an empty password and no members.
pub open spec fn is_stored_record(g: GroupView) -> bool {
    exists|row: GroupRowView| #[trigger] db::is_group_row(row) && g == group_of(row)
}

/// The record of a row that the store gave is a stored record.
pub proof fn lemma_record_of_stored_row(g: Group, row: GroupRow)
    requires
        db::is_group_row(row@),
        g@ == group_of(row@),
    ensures
        is_stored_record(g@),
{
}

/// The record of any row has an empty password and no members.
pub proof fn lemma_group_is_bare(g: Group, row: GroupRow)
    requires
        g@ == group_of(row@),
    ensures
        g.members@.len() == 0,
        g.passwd@.len() == 0,
{
    assert(g@.members.len() == g.members@.len());
}

/// A lookup whose read returned a row gives a record with the row's name and
/// id, and with no members.
pub proof fn lemma_found_row_gives_its_fields(r: Response<Group>, row: GroupRow)
    requires
        is_entry_outcome(r, Ok(row)),
    ensures
        r matches Response::Success(g) && {
            &&& g.name@ == row.name@
            &&& g.gid == row.gid
            &&& g.passwd@ == Seq::<char>::empty()
            &&& g.members@ == Seq::<String>::empty()
        },
{
    let g = r->Success_0;
    lemma_group_is_bare(g, row);
    assert(g.passwd@ =~= Seq::<char>::empty());
    assert(g.members@ =~= Seq::<String>::empty());
}

/// Two lookups whose reads returned the same row, one by id and one by name,
/// give records that agree in every field.
pub proof fn lemma_same_row_same_record(
    by_key: Response<Group>,
    by_name: Response<Group>,
    row: GroupRow,
)
    requires
        is_entry_outcome(by_key, Ok(row)),
        is_entry_outcome(by_name, Ok(row)),
    ensures
        by_key matches Response::Success(g) && by_name matches Response::Success(h) && g@ == h@,
{
}

/// A lookup whose query matched no row gives `NotFound`, and a lookup whose
/// store could not be opened or read gives `Unavail`.
pub proof fn lemma_missing_and_failed_lookups(r: Response<Group>, err: StoreError)
    requires
        is_entry_outcome(r, Err(err)),
    ensures
        err == StoreError::NoRows ==> r is NotFound,
        err != StoreError::NoRows ==> r is Unavail,
{
}

/// An enumeration whose read returned `rows` gives as many records as there
/// are rows, and each of them is the record that a lookup gives when its read
/// returns that row.
pub proof fn lemma_listed_entry_is_found(r: Response<Vec<Group>>, rows: Vec<GroupRow>, i: int)
    requires
        is_entries_outcome(r, Ok(rows)),
        0 <= i < rows.len(),
    ensures
        r matches Response::Success(records) && records.len() == rows.len() && is_entry_outcome(
            Response::Success(records[i]),
            Ok(rows[i]),
        ),
{
}

} // verus!
