use diesel::dsl::sql;
use diesel::result::Error as QueryError;
use diesel::sql_types::Integer;
use diesel::sqlite::SqliteConnection;
use diesel::RunQueryDsl;
use std::cell::Cell;
use tokio_diesel::{
    batch_execute_blocking, run_blocking, transaction_blocking, AsyncError, AsyncResult,
    ConnectionPool, OptionalExtension,
};

fn memory_pool(max_size: u32) -> ConnectionPool {
    ConnectionPool::new(":memory:", max_size, 200).expect("pool of in-memory connections")
}

fn pool_with_three_rows() -> ConnectionPool {
    let pool = memory_pool(1);
    let r = batch_execute_blocking(
        &pool,
        "CREATE TABLE items (x INTEGER NOT NULL); INSERT INTO items VALUES (1), (2), (3);",
    );
    assert!(r.is_ok());
    pool
}

fn count_items(pool: &ConnectionPool) -> i32 {
    let r = run_blocking(pool, |c: &SqliteConnection| {
        diesel::select(sql::<Integer>("COUNT(*) FROM items")).get_result::<i32>(c)
    });
    match r {
        Ok(n) => n,
        Err(_) => panic!("count failed"),
    }
}

#[test]
fn delete_of_three_rows_reports_three() {
    let pool = pool_with_three_rows();
    let r = run_blocking(&pool, |c: &SqliteConnection| diesel::sql_query("DELETE FROM items").execute(c));
    assert!(matches!(r, Ok(3)));
    assert_eq!(count_items(&pool), 0);
}

#[test]
fn get_result_on_no_rows_is_not_found_then_none() {
    let pool = pool_with_three_rows();
    let query = || {
        move |c: &SqliteConnection| {
            diesel::select(sql::<Integer>("x FROM items WHERE x > 100")).get_result::<i32>(c)
        }
    };
    let r = run_blocking(&pool, query());
    assert!(matches!(r, Err(AsyncError::Error(QueryError::NotFound))));
    let r = run_blocking(&pool, query()).optional();
    assert!(matches!(r, Ok(None)));
}

#[test]
fn get_result_on_a_row_is_some_after_optional() {
    let pool = pool_with_three_rows();
    let r = run_blocking(&pool, |c: &SqliteConnection| {
        diesel::select(sql::<Integer>("x FROM items WHERE x = 2")).get_result::<i32>(c)
    })
    .optional();
    assert!(matches!(r, Ok(Some(2))));
}

#[test]
fn optional_keeps_other_query_errors() {
    let r: AsyncResult<i32> = Err(AsyncError::Error(QueryError::RollbackTransaction));
    assert!(matches!(r.optional(), Err(AsyncError::Error(QueryError::RollbackTransaction))));
    let r: AsyncResult<i32> = Err(AsyncError::Error(QueryError::NotFound));
    assert!(matches!(r.optional(), Ok(None)));
    let r: AsyncResult<i32> = Ok(7);
    assert!(matches!(r.optional(), Ok(Some(7))));
}

#[test]
fn optional_keeps_checkout_errors() {
    let pool = memory_pool(1);
    let r = run_blocking(&pool, |_: &SqliteConnection| {
        let inner: AsyncResult<i32> = run_blocking(&pool, |_: &SqliteConnection| Ok(1));
        assert!(matches!(inner, Err(AsyncError::Checkout(_))));
        Ok(matches!(inner.optional(), Err(AsyncError::Checkout(_))))
    });
    assert!(matches!(r, Ok(true)));
}

#[test]
fn checkout_failure_never_calls_the_operation() {
    let pool = memory_pool(1);
    let called = Cell::new(false);
    let r = run_blocking(&pool, |_: &SqliteConnection| {
        let inner = run_blocking(&pool, |_: &SqliteConnection| {
            called.set(true);
            Ok(())
        });
        Ok(matches!(inner, Err(AsyncError::Checkout(_))))
    });
    assert!(matches!(r, Ok(true)));
    assert!(!called.get());
}

#[test]
fn connection_comes_back_after_a_failed_operation() {
    let pool = memory_pool(1);
    let r: AsyncResult<i32> = run_blocking(&pool, |_: &SqliteConnection| Err(QueryError::NotFound));
    assert!(matches!(r, Err(AsyncError::Error(QueryError::NotFound))));
    let r = run_blocking(&pool, |_: &SqliteConnection| Ok(5));
    assert!(matches!(r, Ok(5)));
    let r = run_blocking(&pool, |_: &SqliteConnection| Ok(6));
    assert!(matches!(r, Ok(6)));
}

#[test]
fn nested_checkouts_stop_at_pool_size() {
    let pool = memory_pool(2);
    let r = run_blocking(&pool, |_: &SqliteConnection| {
        let second = run_blocking(&pool, |_: &SqliteConnection| {
            let third: AsyncResult<()> = run_blocking(&pool, |_: &SqliteConnection| Ok(()));
            Ok(matches!(third, Err(AsyncError::Checkout(_))))
        });
        Ok(matches!(second, Ok(true)))
    });
    assert!(matches!(r, Ok(true)));
}

fn forced_failure() -> Result<(), QueryError> {
    Err(QueryError::RollbackTransaction)
}

#[test]
fn transaction_rolls_back_both_writes_on_failure() {
    let pool = pool_with_three_rows();
    let r: AsyncResult<()> = transaction_blocking(&pool, |c: &SqliteConnection| {
        diesel::sql_query("INSERT INTO items VALUES (4)").execute(c)?;
        forced_failure()?;
        diesel::sql_query("INSERT INTO items VALUES (5)").execute(c)?;
        Ok(())
    });
    assert!(matches!(r, Err(AsyncError::Error(QueryError::RollbackTransaction))));
    assert_eq!(count_items(&pool), 3);
}

#[test]
fn transaction_commits_both_writes_on_success() {
    let pool = pool_with_three_rows();
    let r = transaction_blocking(&pool, |c: &SqliteConnection| {
        let a = diesel::sql_query("INSERT INTO items VALUES (4)").execute(c)?;
        let b = diesel::sql_query("INSERT INTO items VALUES (5)").execute(c)?;
        Ok(a + b)
    });
    assert!(matches!(r, Ok(2)));
    assert_eq!(count_items(&pool), 5);
}

#[test]
fn transaction_on_exhausted_pool_is_checkout_error() {
    let pool = memory_pool(1);
    let called = Cell::new(false);
    let r = run_blocking(&pool, |_: &SqliteConnection| {
        let inner = transaction_blocking(&pool, |_: &SqliteConnection| {
            called.set(true);
            Ok(())
        });
        Ok(matches!(inner, Err(AsyncError::Checkout(_))))
    });
    assert!(matches!(r, Ok(true)));
    assert!(!called.get());
}

#[test]
fn batch_execute_reports_bad_sql_as_query_error() {
    let pool = memory_pool(1);
    let r = batch_execute_blocking(&pool, "NOT A STATEMENT;");
    assert!(matches!(r, Err(AsyncError::Error(_))));
}

#[test]
fn batch_execute_on_exhausted_pool_is_checkout_error() {
    let pool = memory_pool(1);
    let r = run_blocking(&pool, |_: &SqliteConnection| {
        Ok(matches!(batch_execute_blocking(&pool, "SELECT 1;"), Err(AsyncError::Checkout(_))))
    });
    assert!(matches!(r, Ok(true)));
}

#[test]
fn message_of_query_error_is_diesels_text() {
    assert_eq!(AsyncError::Error(QueryError::NotFound).message(), "NotFound");
}

#[test]
fn message_of_checkout_error_is_r2d2s_text() {
    let pool = memory_pool(1);
    let r = run_blocking(&pool, |_: &SqliteConnection| {
        let inner: AsyncResult<()> = run_blocking(&pool, |_: &SqliteConnection| Ok(()));
        match inner {
            Err(e @ AsyncError::Checkout(_)) => Ok(e.message()),
            _ => Ok(String::new()),
        }
    });
    match r {
        Ok(text) => assert!(text.starts_with("timed out waiting for connection")),
        Err(_) => panic!("outer run failed"),
    }
}

#[test]
fn pool_on_unreachable_database_is_an_error() {
    let r = ConnectionPool::new("/no/such/directory/data.sqlite", 1, 200);
    assert!(r.is_err());
}

#[test]
fn message_of_rollback_is_diesels_text() {
    let e = AsyncError::Error(QueryError::RollbackTransaction);
    assert_eq!(e.message(), "The current transaction was aborted");
    assert_eq!(e.try_message(), Some(String::from("The current transaction was aborted")));
}

#[test]
fn try_message_of_hidden_variant_is_none() {
    assert_eq!(AsyncError::Error(QueryError::__Nonexhaustive).try_message(), None);
    assert_eq!(AsyncError::Error(QueryError::NotFound).try_message(), Some(String::from("NotFound")));
}

#[test]
fn optional_keeps_the_hidden_variant() {
    let r: AsyncResult<i32> = Err(AsyncError::Error(QueryError::__Nonexhaustive));
    assert!(matches!(r.optional(), Err(AsyncError::Error(QueryError::__Nonexhaustive))));
}
