use vstd::prelude::*;

verus! {

#[verifier::external_type_specification]
#[verifier::external_body]
pub struct ExCheckoutError(r2d2::Error);

#[verifier::external_type_specification]
#[verifier::external_body]
pub struct ExQueryError(diesel::result::Error);

/// Which variant of diesel's query error a value is.
#[derive(Debug, Clone, Copy, PartialEq, Eq, Structural)]
pub enum QueryErrorKind {
    InvalidCString,
    Database,
    NotFound,
    QueryBuilder,
    Deserialization,
    Serialization,
    RollbackTransaction,
    AlreadyInTransaction,
    /// diesel's hidden placeholder variant, which its own code treats as
    /// unreachable.
    Hidden,
}

/// The variant of a query error.
pub uninterp spec fn query_error_kind(e: diesel::result::Error) -> QueryErrorKind;

/// Relies on the variants of `diesel::result::Error`: one kind for each.
#[verifier::external_body]
fn classify_query_error(e: &diesel::result::Error) -> (r: QueryErrorKind)
    ensures
        r == query_error_kind(*e),
{
    match e {
        diesel::result::Error::InvalidCString(_) => QueryErrorKind::InvalidCString,
        diesel::result::Error::DatabaseError(_, _) => QueryErrorKind::Database,
        diesel::result::Error::NotFound => QueryErrorKind::NotFound,
        diesel::result::Error::QueryBuilderError(_) => QueryErrorKind::QueryBuilder,
        diesel::result::Error::DeserializationError(_) => QueryErrorKind::Deserialization,
        diesel::result::Error::SerializationError(_) => QueryErrorKind::Serialization,
        diesel::result::Error::RollbackTransaction => QueryErrorKind::RollbackTransaction,
        diesel::result::Error::AlreadyInTransaction => QueryErrorKind::AlreadyInTransaction,
        diesel::result::Error::__Nonexhaustive => QueryErrorKind::Hidden,
    }
}

/// Whether a query error is diesel's "no matching row" variant.
pub open spec fn is_not_found(e: diesel::result::Error) -> bool {
    query_error_kind(e) == QueryErrorKind::NotFound
}

/// Variants whose text diesel or std fixes; the others print what a boxed
/// error or database message of their own chooses.
pub open spec fn has_fixed_text(k: QueryErrorKind) -> bool {
    k == QueryErrorKind::InvalidCString || k == QueryErrorKind::NotFound
        || k == QueryErrorKind::RollbackTransaction || k == QueryErrorKind::AlreadyInTransaction
}

/// A failure of a dispatched operation, tagged with its origin.
#[derive(Debug)]
pub enum AsyncError {
    /// No connection could be checked out of the pool.
    Checkout(r2d2::Error),
    /// A connection was obtained, and the operation on it failed.
    Error(diesel::result::Error),
}

/// The text that r2d2 displays for a checkout error.
pub uninterp spec fn checkout_text(e: r2d2::Error) -> Seq<char>;

/// The text that diesel displays for a query error.
pub uninterp spec fn query_text(e: diesel::result::Error) -> Seq<char>;

/// Relies on `Display` of `r2d2::Error`: its text depends on the error alone.
#[verifier::external_body]
fn display_checkout_error(e: &r2d2::Error) -> (r: String)
    ensures
        r@ == checkout_text(*e),
{
    format!("{}", e)
}

/// Relies on `Display` of `diesel::result::Error`: for the variants whose text
/// diesel or std fixes, the text depends on the error alone. The hidden
/// variant makes it panic, so it is left out.
#[verifier::external_body]
fn display_query_error(e: &diesel::result::Error) -> (r: String)
    requires
        query_error_kind(*e) != QueryErrorKind::Hidden,
    ensures
        has_fixed_text(query_error_kind(*e)) ==> r@ == query_text(*e),
{
    format!("{}", e)
}

/// The text of an error is the text of the failure it carries.
pub open spec fn message_of(e: AsyncError) -> Seq<char> {
    match e {
        AsyncError::Checkout(err) => checkout_text(err),
        AsyncError::Error(err) => query_text(err),
    }
}

/// Whether an error carries diesel's hidden query error variant, which has
/// no text.
pub open spec fn is_hidden(e: AsyncError) -> bool {
    e is Error && query_error_kind(e->Error_0) == QueryErrorKind::Hidden
}

/// Whether the text of an error is fixed by r2d2, diesel or std.
pub open spec fn has_fixed_message(e: AsyncError) -> bool {
    match e {
        AsyncError::Checkout(_) => true,
        AsyncError::Error(err) => has_fixed_text(query_error_kind(err)),
    }
}

impl AsyncError {
    /// Describes the failure in the words of the pool or of the query layer.
    pub fn message(&self) -> (r: String)
        requires
            !is_hidden(*self),
        ensures
            has_fixed_message(*self) ==> r@ == message_of(*self),
    {
        match self {
            AsyncError::Checkout(err) => display_checkout_error(err),
            AsyncError::Error(err) => display_query_error(err),
        }
    }

    /// Like `message`, with `None` for the hidden query error variant.
    pub fn try_message(&self) -> (r: Option<String>)
        ensures
            r is None <==> is_hidden(*self),
            r is Some && has_fixed_message(*self) ==> r->0@ == message_of(*self),
    {
        match self {
            AsyncError::Checkout(_) => Some(self.message()),
            AsyncError::Error(err) => {
                match classify_query_error(err) {
                    QueryErrorKind::Hidden => None,
                    _ => Some(self.message()),
                }
            },
        }
    }
}

/// The outcome of a dispatched operation.
pub type AsyncResult<R> = Result<R, AsyncError>;

/// What `optional` makes of a result: a "not found" query error becomes an
/// absent value, a success a present one, and every other error stays.
pub open spec fn optional_of<T>(r: AsyncResult<T>) -> Result<Option<T>, AsyncError> {
    match r {
        Ok(v) => Ok(Some(v)),
        Err(AsyncError::Error(e)) => if is_not_found(e) {
            Ok(None)
        } else {
            Err(AsyncError::Error(e))
        },
        Err(AsyncError::Checkout(e)) => Err(AsyncError::Checkout(e)),
    }
}

pub trait OptionalExtension<T>: Sized {
    spec fn optional_spec(self) -> Result<Option<T>, AsyncError>;

    /// Turns a "not found" query error into `Ok(None)`.
    fn optional(self) -> (r: Result<Option<T>, AsyncError>)
        ensures
            r == self.optional_spec(),
    ;
}

impl<T> OptionalExtension<T> for AsyncResult<T> {
    open spec fn optional_spec(self) -> Result<Option<T>, AsyncError> {
        optional_of(self)
    }

    fn optional(self) -> (r: Result<Option<T>, AsyncError>) {
        match self {
            Ok(value) => Ok(Some(value)),
            Err(AsyncError::Error(e)) => {
                if classify_query_error(&e) == QueryErrorKind::NotFound {
                    Ok(None)
                } else {
                    Err(AsyncError::Error(e))
                }
            },
            Err(e) => Err(e),
        }
    }
}

} // verus!
