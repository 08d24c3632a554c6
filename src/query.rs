use crate::dispatch::{checkout, follows_checkout, run_on_lease, ConnectionPool, Lease};
use crate::error::AsyncResult;
use diesel::dsl::Limit;
use diesel::query_dsl::methods::{ExecuteDsl, LimitDsl, LoadQuery};
use diesel::query_dsl::{RunQueryDsl, SaveChangesDsl, UpdateAndFetchResults};
use diesel::result::QueryResult;
use diesel::sqlite::SqliteConnection;
use vstd::prelude::*;

verus! {

// Each wrapper below runs a prepared SQLite statement through diesel. diesel
// panics if SQLite reports an error when a cached statement is finalized;
// that depends on the database's own state, which no argument here can rule
// out, so these wrappers promise nothing of their result.

/// Relies on diesel's `RunQueryDsl::execute`: runs the statement and counts
/// the rows it affected.
#[verifier::external_body]
fn execute_query<T>(query: T, conn: &SqliteConnection) -> QueryResult<usize> where
    T: RunQueryDsl<SqliteConnection> + ExecuteDsl<SqliteConnection>,
 {
    query.execute(conn)
}

/// Relies on diesel's `RunQueryDsl::load`: every row of the query.
#[verifier::external_body]
fn load_rows<T, U>(query: T, conn: &SqliteConnection) -> QueryResult<Vec<U>> where
    T: RunQueryDsl<SqliteConnection> + LoadQuery<SqliteConnection, U>,
 {
    query.load(conn)
}

/// Relies on diesel's `RunQueryDsl::get_result`: the first row of the query,
/// or `NotFound`.
#[verifier::external_body]
fn one_row<T, U>(query: T, conn: &SqliteConnection) -> QueryResult<U> where
    T: RunQueryDsl<SqliteConnection> + LoadQuery<SqliteConnection, U>,
 {
    query.get_result(conn)
}

/// Relies on diesel's `RunQueryDsl::get_results`: every row of the query.
#[verifier::external_body]
fn all_rows<T, U>(query: T, conn: &SqliteConnection) -> QueryResult<Vec<U>> where
    T: RunQueryDsl<SqliteConnection> + LoadQuery<SqliteConnection, U>,
 {
    query.get_results(conn)
}

/// Relies on diesel's `RunQueryDsl::first`: the first row of the query with
/// `LIMIT 1`, or `NotFound`.
#[verifier::external_body]
fn first_row<T, U>(query: T, conn: &SqliteConnection) -> QueryResult<U> where
    T: RunQueryDsl<SqliteConnection> + LimitDsl,
    Limit<T>: LoadQuery<SqliteConnection, U>,
 {
    query.first(conn)
}

/// Relies on diesel's `SaveChangesDsl::save_changes`: writes the changeset
/// and reads the updated row back.
#[verifier::external_body]
fn save_and_refetch<T, U>(changes: T, conn: &SqliteConnection) -> QueryResult<U> where
    T: SaveChangesDsl<SqliteConnection>,
    SqliteConnection: UpdateAndFetchResults<T, U>,
 {
    changes.save_changes(conn)
}

/// Runs `query` as a statement on the leased connection: the number of rows
/// it affected.
pub fn execute_on_lease<T>(query: T, lease: Result<Lease, r2d2::Error>) -> (r: AsyncResult<usize>) where
    T: RunQueryDsl<SqliteConnection> + ExecuteDsl<SqliteConnection>,

    ensures
        follows_checkout(lease, r),
{
    run_on_lease(lease, move |c: &SqliteConnection| execute_query(query, c))
}

/// Loads every row of `query` on the leased connection.
pub fn load_on_lease<T, U>(query: T, lease: Result<Lease, r2d2::Error>) -> (r: AsyncResult<Vec<U>>) where
    T: RunQueryDsl<SqliteConnection> + LoadQuery<SqliteConnection, U>,

    ensures
        follows_checkout(lease, r),
{
    run_on_lease(lease, move |c: &SqliteConnection| load_rows(query, c))
}

/// Loads the first row of `query` on the leased connection; no row is a
/// `NotFound` query error.
pub fn get_result_on_lease<T, U>(query: T, lease: Result<Lease, r2d2::Error>) -> (r: AsyncResult<U>) where
    T: RunQueryDsl<SqliteConnection> + LoadQuery<SqliteConnection, U>,

    ensures
        follows_checkout(lease, r),
{
    run_on_lease(lease, move |c: &SqliteConnection| one_row(query, c))
}

/// Loads every row of `query` on the leased connection.
pub fn get_results_on_lease<T, U>(query: T, lease: Result<Lease, r2d2::Error>) -> (r: AsyncResult<Vec<U>>) where
    T: RunQueryDsl<SqliteConnection> + LoadQuery<SqliteConnection, U>,

    ensures
        follows_checkout(lease, r),
{
    run_on_lease(lease, move |c: &SqliteConnection| all_rows(query, c))
}

/// Loads the first row of `query` limited to one, on the leased connection.
pub fn first_on_lease<T, U>(query: T, lease: Result<Lease, r2d2::Error>) -> (r: AsyncResult<U>) where
    T: RunQueryDsl<SqliteConnection> + LimitDsl,
    Limit<T>: LoadQuery<SqliteConnection, U>,

    ensures
        follows_checkout(lease, r),
{
    run_on_lease(lease, move |c: &SqliteConnection| first_row(query, c))
}

/// Saves `changes` on the leased connection and returns the row as stored.
pub fn save_changes_on_lease<T, U>(changes: T, lease: Result<Lease, r2d2::Error>) -> (r: AsyncResult<U>) where
    T: SaveChangesDsl<SqliteConnection>,
    SqliteConnection: UpdateAndFetchResults<T, U>,

    ensures
        follows_checkout(lease, r),
{
    run_on_lease(lease, move |c: &SqliteConnection| save_and_refetch(changes, c))
}

/// Checks a connection out of `pool` and runs `query` as a statement on it.
pub fn execute_blocking<T>(query: T, pool: &ConnectionPool) -> AsyncResult<usize> where
    T: RunQueryDsl<SqliteConnection> + ExecuteDsl<SqliteConnection>,
 {
    execute_on_lease(query, checkout(pool))
}

/// Checks a connection out of `pool` and loads every row of `query`.
pub fn load_blocking<T, U>(query: T, pool: &ConnectionPool) -> AsyncResult<Vec<U>> where
    T: RunQueryDsl<SqliteConnection> + LoadQuery<SqliteConnection, U>,
 {
    load_on_lease(query, checkout(pool))
}

/// Checks a connection out of `pool` and loads the first row of `query`.
pub fn get_result_blocking<T, U>(query: T, pool: &ConnectionPool) -> AsyncResult<U> where
    T: RunQueryDsl<SqliteConnection> + LoadQuery<SqliteConnection, U>,
 {
    get_result_on_lease(query, checkout(pool))
}

/// Checks a connection out of `pool` and loads every row of `query`.
pub fn get_results_blocking<T, U>(query: T, pool: &ConnectionPool) -> AsyncResult<Vec<U>> where
    T: RunQueryDsl<SqliteConnection> + LoadQuery<SqliteConnection, U>,
 {
    get_results_on_lease(query, checkout(pool))
}

/// Checks a connection out of `pool` and loads one row of `query`.
pub fn first_blocking<T, U>(query: T, pool: &ConnectionPool) -> AsyncResult<U> where
    T: RunQueryDsl<SqliteConnection> + LimitDsl,
    Limit<T>: LoadQuery<SqliteConnection, U>,
 {
    first_on_lease(query, checkout(pool))
}

/// Checks a connection out of `pool`, saves `changes` and returns the row as
/// stored.
pub fn save_changes_blocking<T, U>(changes: T, pool: &ConnectionPool) -> AsyncResult<U> where
    T: SaveChangesDsl<SqliteConnection>,
    SqliteConnection: UpdateAndFetchResults<T, U>,
 {
    save_changes_on_lease(changes, checkout(pool))
}

} // verus!
