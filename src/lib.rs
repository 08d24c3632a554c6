//! Running blocking, pooled database work from async code: the checkout and
//! execution core, with a two-origin error type.

pub mod dispatch;
pub mod error;
pub mod query;

pub use dispatch::{
    batch_execute_blocking, batch_execute_on_lease, run_blocking, run_on_lease,
    transaction_blocking, transaction_on_lease, ConnectionPool, Lease,
};
pub use error::{AsyncError, AsyncResult, OptionalExtension, QueryErrorKind};
pub use query::{
    execute_blocking, execute_on_lease, first_blocking, first_on_lease, get_result_blocking,
    get_result_on_lease, get_results_blocking, get_results_on_lease, load_blocking, load_on_lease,
    save_changes_blocking, save_changes_on_lease,
};
