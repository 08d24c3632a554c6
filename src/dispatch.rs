use crate::error::{is_not_found, optional_of, AsyncError, AsyncResult};
use diesel::r2d2::ConnectionManager;
use diesel::result::QueryResult;
use diesel::sqlite::SqliteConnection;
use diesel::Connection;
use diesel::connection::SimpleConnection;
use r2d2::{Pool, PooledConnection};
use vstd::prelude::*;

verus! {

#[verifier::external_type_specification]
#[verifier::external_body]
pub struct ExSqliteConnection(diesel::sqlite::SqliteConnection);

/// A shared handle to a pool of diesel connections, kept opaque: r2d2's pool
/// type cannot be declared to the verifier.
#[verifier::external_body]
pub struct ConnectionPool {
    pool: Pool<ConnectionManager<SqliteConnection>>,
}

/// One connection checked out of a `ConnectionPool`; it goes back to the
/// pool when the lease is dropped.
#[verifier::external_body]
pub struct Lease {
    conn: PooledConnection<ConnectionManager<SqliteConnection>>,
}

/// Relies on r2d2's `Builder` and diesel's `ConnectionManager::new`: a pool
/// of at most `max_size` connections to `database_url`, whose checkouts give up
/// after `timeout_ms` milliseconds, or the error of its first connections.
/// `max_size` and the timeout must be positive, or the builder panics.
#[verifier::external_body]
fn build_pool(
    database_url: &str,
    max_size: u32,
    timeout_ms: u64,
) -> Result<ConnectionPool, r2d2::Error>
    requires
        max_size > 0,
        timeout_ms > 0,
{
    Pool::builder()
        .max_size(max_size)
        .connection_timeout(std::time::Duration::from_millis(timeout_ms))
        .build(ConnectionManager::new(database_url))
        .map(|pool| ConnectionPool { pool })
}

impl ConnectionPool {
    /// Opens a pool of at most `max_size` connections to `database_url`;
    /// a checkout waits at most `timeout_ms` milliseconds for a free one.
    pub fn new(database_url: &str, max_size: u32, timeout_ms: u64) -> (r: Result<Self, r2d2::Error>)
        requires
            max_size > 0,
            timeout_ms > 0,
    {
        build_pool(database_url, max_size, timeout_ms)
    }
}

/// Relies on r2d2's `Pool::get`: a lease on one connection, or the pool's
/// error when none could be had in time. Which of the two comes back depends
/// on the pool's state, so nothing more is promised.
#[verifier::external_body]
pub(crate) fn checkout(
    pool: &ConnectionPool,
) -> Result<Lease, r2d2::Error> {
    pool.pool.get().map(|conn| Lease { conn })
}

/// Relies on `Deref` of r2d2's `PooledConnection`: the leased connection.
#[verifier::external_body]
fn leased(lease: &Lease) -> &SqliteConnection {
    &*lease.conn
}

/// The result of an operation on a connection, with a query error tagged as
/// an operation failure.
pub open spec fn tag_query_result<R>(x: QueryResult<R>) -> AsyncResult<R> {
    match x {
        Ok(v) => Ok(v),
        Err(e) => Err(AsyncError::Error(e)),
    }
}

/// After a dispatched operation, `optional` turns a query that found no row
/// into an absent value and a success into a present one; every other query
/// error, and a failed checkout, comes back unchanged.
pub proof fn lemma_optional_after_run<R>(e: r2d2::Error, x: QueryResult<R>)
    ensures
        optional_of(Err::<R, AsyncError>(AsyncError::Checkout(e)))
            == Err::<Option<R>, AsyncError>(AsyncError::Checkout(e)),
        x is Ok ==> optional_of(tag_query_result(x)) == Ok::<Option<R>, AsyncError>(Some(x->Ok_0)),
        x is Err && is_not_found(x->Err_0) ==> optional_of(tag_query_result(x))
            == Ok::<Option<R>, AsyncError>(None),
        x is Err && !is_not_found(x->Err_0) ==> optional_of(tag_query_result(x))
            == Err::<Option<R>, AsyncError>(AsyncError::Error(x->Err_0)),
{
}

/// How a result relates to the checkout it started from: a failed checkout
/// comes back as it is, and after a successful one any failure is the
/// operation's.
pub open spec fn follows_checkout<R>(lease: Result<Lease, r2d2::Error>, r: AsyncResult<R>) -> bool {
    match lease {
        Err(e) => r == Err::<R, AsyncError>(AsyncError::Checkout(e)),
        Ok(_) => r is Ok || r->Err_0 is Error,
    }
}

/// Runs `f` on the connection that `lease` holds, or reports the failed
/// checkout without calling `f`. The lease goes back to the pool when it
/// leaves scope here, whatever `f` returned.
pub fn run_on_lease<R, F>(
    lease: Result<Lease, r2d2::Error>,
    f: F,
) -> (r: AsyncResult<R>) where
    F: FnOnce(&SqliteConnection) -> QueryResult<R>,

    requires
        forall|c: &SqliteConnection| f.requires((c,)),
    ensures
        match lease {
            Err(e) => r == Err::<R, AsyncError>(AsyncError::Checkout(e)),
            Ok(_) => exists|c: &SqliteConnection, x: QueryResult<R>|
                f.ensures((c,), x) && r == tag_query_result(x),
        },
{
    match lease {
        Err(e) => Err(AsyncError::Checkout(e)),
        Ok(conn) => {
            let x = f(leased(&conn));
            match x {
                Ok(v) => Ok(v),
                Err(e) => Err(AsyncError::Error(e)),
            }
        },
    }
}

/// Checks a connection out of `pool` and runs `f` on it.
pub fn run_blocking<R, F>(pool: &ConnectionPool, f: F) -> (r: AsyncResult<R>) where
    F: FnOnce(&SqliteConnection) -> QueryResult<R>,

    requires
        forall|c: &SqliteConnection| f.requires((c,)),
    ensures
        r is Err && r->Err_0 is Checkout || exists|c: &SqliteConnection, x: QueryResult<R>|
            f.ensures((c,), x) && r == tag_query_result(x),
{
    run_on_lease(checkout(pool), f)
}

/// Relies on diesel's `Connection::transaction`: it begins a transaction,
/// calls `f`, commits when `f` succeeded and rolls back when it failed. An
/// `Ok` is what `f` returned, the commit having gone through.
#[verifier::external_body]
fn within_transaction<R, F>(conn: &SqliteConnection, f: F) -> (r: QueryResult<R>) where
    F: FnOnce() -> QueryResult<R>,

    requires
        f.requires(()),
    ensures
        r is Ok ==> f.ensures((), r),
{
    conn.transaction(f)
}

/// Relies on diesel's `SimpleConnection::batch_execute`: runs the statements
/// of `query` and reports the database's answer.
#[verifier::external_body]
fn execute_batch(conn: &SqliteConnection, query: &str) -> QueryResult<()> {
    conn.batch_execute(query)
}

/// Like `run_on_lease`, with `f` inside a transaction on the leased
/// connection: committed when it succeeds, rolled back when it fails.
pub fn transaction_on_lease<R, F>(
    lease: Result<Lease, r2d2::Error>,
    f: F,
) -> (r: AsyncResult<R>) where
    F: FnOnce(&SqliteConnection) -> QueryResult<R>,

    requires
        forall|c: &SqliteConnection| f.requires((c,)),
    ensures
        match lease {
            Err(e) => r == Err::<R, AsyncError>(AsyncError::Checkout(e)),
            Ok(_) => r is Err && r->Err_0 is Error || exists|c: &SqliteConnection, v: R|
                f.ensures((c,), Ok::<R, diesel::result::Error>(v)) && r == Ok::<R, AsyncError>(v),
        },
{
    match lease {
        Err(e) => Err(AsyncError::Checkout(e)),
        Ok(lease) => {
            let conn = leased(&lease);
            let x = within_transaction(conn, move || -> (x: QueryResult<R>)
                requires
                    f.requires((conn,)),
                ensures
                    f.ensures((conn,), x),
                { f(conn) });
            match x {
                Ok(v) => Ok(v),
                Err(e) => Err(AsyncError::Error(e)),
            }
        },
    }
}

/// Checks a connection out of `pool` and runs `f` on it inside a transaction.
pub fn transaction_blocking<R, F>(pool: &ConnectionPool, f: F) -> (r: AsyncResult<R>) where
    F: FnOnce(&SqliteConnection) -> QueryResult<R>,

    requires
        forall|c: &SqliteConnection| f.requires((c,)),
    ensures
        r is Err || exists|c: &SqliteConnection, v: R|
            f.ensures((c,), Ok::<R, diesel::result::Error>(v)) && r == Ok::<R, AsyncError>(v),
{
    transaction_on_lease(checkout(pool), f)
}

/// Runs the SQL statements of `query` on the connection that `lease` holds,
/// or reports the failed checkout without touching the database.
pub fn batch_execute_on_lease(lease: Result<Lease, r2d2::Error>, query: &str) -> (r: AsyncResult<()>)
    ensures
        follows_checkout(lease, r),
{
    run_on_lease(lease, |conn: &SqliteConnection| execute_batch(conn, query))
}

/// Checks a connection out of `pool` and runs the SQL statements of `query`
/// on it.
pub fn batch_execute_blocking(pool: &ConnectionPool, query: &str) -> (r: AsyncResult<()>) {
    batch_execute_on_lease(checkout(pool), query)
}

} // verus!
