//! The three-way outcome of a lookup, and how a storage result maps to it.

use vstd::prelude::*;

verus! {

/// What a lookup reports to the host resolver.
#[derive(Debug)]
pub enum Response<T> {
    /// The lookup completed; the value is the record or the records.
    Success(T),
    /// The read matched no row. The host may ask its next source.
    NotFound,
    /// The store could not be opened or read, or a row could not be mapped.
    Unavail,
}

/// Why a read of the store gave no value.
#[derive(Debug, Clone, Copy, PartialEq, Eq, Structural)]
pub enum StoreError {
    /// The query ran and matched zero rows.
    NoRows,
    /// The store could not be opened.
    OpenFailed,
    /// The query could not be prepared or run, or a column of a row did not
    /// convert to its expected type.
    ReadFailed,
}

impl StoreError {
    /// The failure that a read ended in: `NoRows` where the query ran and
    /// matched no row, `ReadFailed` for every other error.
    pub fn of_read(no_rows: bool) -> (e: StoreError)
        ensures
            e == (if no_rows {
                StoreError::NoRows
            } else {
                StoreError::ReadFailed
            }),
    {
        if no_rows {
            StoreError::NoRows
        } else {
            StoreError::ReadFailed
        }
    }
}

/// The outcome that stands for a storage result: a value is a success, a
/// query that matched nothing is `NotFound`, every other failure is `Unavail`.
pub open spec fn classify<T>(res: Result<T, StoreError>) -> Response<T> {
    match res {
        Ok(value) => Response::Success(value),
        Err(StoreError::NoRows) => Response::NotFound,
        Err(_) => Response::Unavail,
    }
}

/// Turns the combined result of opening, querying and mapping into the
/// outcome handed to the host.
pub fn from_result<T>(res: Result<T, StoreError>) -> (r: Response<T>)
    ensures
        r == classify(res),
{
    match res {
        Ok(value) => Response::Success(value),
        Err(StoreError::NoRows) => Response::NotFound,
        Err(_) => Response::Unavail,
    }
}

/// `NotFound` is the outcome of a query that matched no row, and of nothing
/// else: no other failure is ever turned into it.
pub proof fn lemma_not_found_only_for_no_rows<T>(res: Result<T, StoreError>)
    ensures
        classify(res) is NotFound <==> res == Err::<T, StoreError>(StoreError::NoRows),
{
}

/// A store that cannot be opened or read gives `Unavail`: never `NotFound`,
/// never a success.
pub proof fn lemma_failure_is_unavailable<T>(err: StoreError)
    requires
        err != StoreError::NoRows,
    ensures
        classify(Err::<T, StoreError>(err)) is Unavail,
{
}

/// A result that holds a value gives a success with that value, and
/// nothing else gives a success.
pub proof fn lemma_success_only_for_value<T>(res: Result<T, StoreError>)
    ensures
        classify(res) is Success <==> res is Ok,
        res is Ok ==> classify(res) == Response::Success(res->Ok_0),
{
}

} // verus!
