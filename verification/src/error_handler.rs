//! Query errors, their conversion into the crate-wide error type, the
//! messages logged for them, and the result wrapper that carries a query's
//! outcome together with its statement.
use vstd::prelude::*;
use crate::text::{decimal, owned, push_decimal, push_str};

verus! {

/// A failure of a database query.
pub enum QueryError {
    ConnectionError { message: String },
    ExecutionError { sql: String, message: String },
    DeserializationError { target_type: String, message: String },
    NoResultsError { sql: String },
    InvalidParametersError { message: String },
    CacheError { message: String },
    TimeoutError,
}

/// The crate-wide error kinds that query errors are reported as.
pub enum HandleError {
    SurrealError { msg: String },
    QueryErr { sql: String, msg: String, position: String },
    DeserializeErr { struct_name: String, msg: String, sql: String, position: String },
    QueryNullErr { sql: String, position: String },
}

/// The human-readable text of a query error.
pub open spec fn query_error_text(e: QueryError) -> Seq<char> {
    match e {
        QueryError::ConnectionError { message } => "Database connection error: "@ + message@,
        QueryError::ExecutionError { sql, message } => "Query execution error: "@ + sql@ + " - "@
            + message@,
        QueryError::DeserializationError { target_type, message } => "Deserialization error for "@
            + target_type@ + ": "@ + message@,
        QueryError::NoResultsError { sql } => "Query returned no results: "@ + sql@,
        QueryError::InvalidParametersError { message } => "Invalid query parameters: "@
            + message@,
        QueryError::CacheError { message } => "Cache error: "@ + message@,
        QueryError::TimeoutError => "Timeout error: query took too long to execute"@,
    }
}

/// The place recorded in converted errors: the conversion itself.
pub open spec fn conversion_site() -> Seq<char> {
    "error_handler::HandleError::from"@
}

/// The crate-wide error that a query error is reported as: connection
/// failures become database errors, execution failures keep their statement
/// and message, deserialization failures keep the type and message with an
/// unknown statement, empty results keep their statement, and all other
/// errors become database errors carrying the query error's text.
pub open spec fn converts_to(e: QueryError, h: HandleError) -> bool {
    match e {
        QueryError::ConnectionError { message } => h matches HandleError::SurrealError { msg }
            && msg@ == message@,
        QueryError::ExecutionError { sql, message } => h matches HandleError::QueryErr {
            sql: s,
            msg,
            position,
        } && s@ == sql@ && msg@ == message@ && position@ == conversion_site(),
        QueryError::DeserializationError { target_type, message } => h matches HandleError::DeserializeErr {
            struct_name,
            msg,
            sql,
            position,
        } && struct_name@ == target_type@ && msg@ == message@ && sql@ == "unknown"@ && position@
            == conversion_site(),
        QueryError::NoResultsError { sql } => h matches HandleError::QueryNullErr { sql: s, position }
            && s@ == sql@ && position@ == conversion_site(),
        _ => h matches HandleError::SurrealError { msg } && msg@ == query_error_text(e),
    }
}

impl QueryError {
    /// The human-readable text of the error.
    pub fn message_text(&self) -> (r: String)
        ensures
            r@ == query_error_text(*self),
    {
        let mut r = String::new();
        match self {
            QueryError::ConnectionError { message } => {
                push_str(&mut r, "Database connection error: ");
                push_str(&mut r, message.as_str());
            },
            QueryError::ExecutionError { sql, message } => {
                push_str(&mut r, "Query execution error: ");
                push_str(&mut r, sql.as_str());
                push_str(&mut r, " - ");
                push_str(&mut r, message.as_str());
            },
            QueryError::DeserializationError { target_type, message } => {
                push_str(&mut r, "Deserialization error for ");
                push_str(&mut r, target_type.as_str());
                push_str(&mut r, ": ");
                push_str(&mut r, message.as_str());
            },
            QueryError::NoResultsError { sql } => {
                push_str(&mut r, "Query returned no results: ");
                push_str(&mut r, sql.as_str());
            },
            QueryError::InvalidParametersError { message } => {
                push_str(&mut r, "Invalid query parameters: ");
                push_str(&mut r, message.as_str());
            },
            QueryError::CacheError { message } => {
                push_str(&mut r, "Cache error: ");
                push_str(&mut r, message.as_str());
            },
            QueryError::TimeoutError => {
                push_str(&mut r, "Timeout error: query took too long to execute");
            },
        }
        r
    }

    /// The query error for a failure reported by the database client:
    /// client-side connection failures become connection errors, every
    /// other failure an execution error of an unknown statement; the
    /// message is the client's text in both cases.
    pub fn from_client_failure(is_connection: bool, text: String) -> (r: QueryError)
        ensures
            is_connection ==> (r matches QueryError::ConnectionError { message } && message@
                == text@),
            !is_connection ==> (r matches QueryError::ExecutionError { sql, message } && sql@
                == "unknown"@ && message@ == text@),
    {
        if is_connection {
            QueryError::ConnectionError { message: text }
        } else {
            QueryError::ExecutionError { sql: owned("unknown"), message: text }
        }
    }

    /// The query error for an error of the database client.
    pub fn from_surreal_error(error: &surrealdb::Error) -> (r: QueryError)
        ensures
            surreal_is_connection_of(*error) ==> (r matches QueryError::ConnectionError { message }
                && message@ == surreal_text_of(*error)),
            !surreal_is_connection_of(*error) ==> (r matches QueryError::ExecutionError {
                sql,
                message,
            } && sql@ == "unknown"@ && message@ == surreal_text_of(*error)),
    {
        let is_connection = surreal_error_is_connection(error);
        let text = surreal_error_text(error);
        QueryError::from_client_failure(is_connection, text)
    }
}

#[verifier::external_type_specification]
#[verifier::external_body]
pub struct ExSurrealError(surrealdb::Error);

/// Whether a client error is a connection error: what
/// `surrealdb::Error::is_connection` answers, a test of the error's kind
/// that depends on the error alone.
pub uninterp spec fn surreal_is_connection_of(error: surrealdb::Error) -> bool;

/// The text of a client error: what its `Display` writes, the error's
/// message, which depends on the error alone.
pub uninterp spec fn surreal_text_of(error: surrealdb::Error) -> Seq<char>;

/// Calls `surrealdb::Error::is_connection`, which tells whether the error is
/// of the connection kind. The answer is named, not spelled out.
#[verifier::external_body]
fn surreal_error_is_connection(error: &surrealdb::Error) -> (r: bool)
    ensures
        r == surreal_is_connection_of(*error),
{
    error.is_connection()
}

/// Calls the `Display` text of `surrealdb::Error` through `to_string` (the
/// error's message). The text is named, not spelled out.
#[verifier::external_body]
fn surreal_error_text(error: &surrealdb::Error) -> (r: String)
    ensures
        r@ == surreal_text_of(*error),
{
    error.to_string()
}

impl HandleError {
    /// The crate-wide error that a query error is reported as.
    pub fn from(error: QueryError) -> (r: HandleError)
        ensures
            converts_to(error, r),
    {
        match error {
            QueryError::ConnectionError { message } => HandleError::SurrealError { msg: message },
            QueryError::ExecutionError { sql, message } => HandleError::QueryErr {
                sql,
                msg: message,
                position: owned("error_handler::HandleError::from"),
            },
            QueryError::DeserializationError { target_type, message } => HandleError::DeserializeErr {
                struct_name: target_type,
                msg: message,
                sql: owned("unknown"),
                position: owned("error_handler::HandleError::from"),
            },
            QueryError::NoResultsError { sql } => HandleError::QueryNullErr {
                sql,
                position: owned("error_handler::HandleError::from"),
            },
            _ => {
                let msg = error.message_text();
                HandleError::SurrealError { msg }
            },
        }
    }
}

/// How loud a log record is.
#[derive(Clone, Copy, Debug, PartialEq, Eq, Structural)]
pub enum LogLevel {
    Debug,
    Warn,
    Error,
}

/// A log line to be written by the caller.
pub struct LogRecord {
    pub level: LogLevel,
    pub message: String,
}

/// Statements slower than this many milliseconds are reported as slow.
pub const SLOW_QUERY_MS: u64 = 1000;

/// Builds the query errors and the log lines that go with them.
pub struct QueryErrorHandler;

impl QueryErrorHandler {
    /// An execution failure of `sql` with the error text `error_msg`.
    pub fn handle_execution_error(sql: &str, error_msg: String) -> (r: QueryError)
        ensures
            r matches QueryError::ExecutionError { sql: s, message } && s@ == sql@ && message@
                == error_msg@,
    {
        QueryError::ExecutionError { sql: owned(sql), message: error_msg }
    }

    /// A failure to decode a result into the type named `target_type`.
    pub fn handle_deserialization_error(target_type: &str, error_msg: String) -> (r: QueryError)
        ensures
            r matches QueryError::DeserializationError { target_type: t, message } && t@
                == target_type@ && message@ == error_msg@,
    {
        QueryError::DeserializationError { target_type: owned(target_type), message: error_msg }
    }

    /// An empty result of `sql`.
    pub fn handle_no_results_error(sql: &str) -> (r: QueryError)
        ensures
            r matches QueryError::NoResultsError { sql: s } && s@ == sql@,
    {
        QueryError::NoResultsError { sql: owned(sql) }
    }

    /// A connection failure with the error text `error_msg`.
    pub fn handle_connection_error(error_msg: String) -> (r: QueryError)
        ensures
            r matches QueryError::ConnectionError { message } && message@ == error_msg@,
    {
        QueryError::ConnectionError { message: error_msg }
    }

    /// A cache failure with the error text `error_msg`.
    pub fn handle_cache_error(error_msg: String) -> (r: QueryError)
        ensures
            r matches QueryError::CacheError { message } && message@ == error_msg@,
    {
        QueryError::CacheError { message: error_msg }
    }

    /// The log line for a statement that ran for `duration_ms`: a warning
    /// for a slow one, a debug line otherwise.
    pub fn log_query_execution(sql: &str, duration_ms: u64) -> (r: LogRecord)
        ensures
            duration_ms > SLOW_QUERY_MS ==> r.level == LogLevel::Warn && r.message@
                == "Slow query detected ("@ + decimal(duration_ms as nat) + "ms): "@ + sql@,
            duration_ms <= SLOW_QUERY_MS ==> r.level == LogLevel::Debug && r.message@
                == "Query executed ("@ + decimal(duration_ms as nat) + "ms): "@ + sql@,
    {
        let mut message = String::new();
        let level = if duration_ms > SLOW_QUERY_MS {
            push_str(&mut message, "Slow query detected (");
            LogLevel::Warn
        } else {
            push_str(&mut message, "Query executed (");
            LogLevel::Debug
        };
        push_decimal(&mut message, duration_ms);
        push_str(&mut message, "ms): ");
        push_str(&mut message, sql);
        LogRecord { level, message }
    }

    /// The debug line for a statement that returned `result_count` rows.
    pub fn log_query_results(sql: &str, result_count: usize) -> (r: LogRecord)
        ensures
            r.level == LogLevel::Debug,
            r.message@ == "Query returned "@ + decimal(result_count as nat) + " results: "@
                + sql@,
    {
        let mut message = String::new();
        push_str(&mut message, "Query returned ");
        push_decimal(&mut message, result_count as u64);
        push_str(&mut message, " results: ");
        push_str(&mut message, sql);
        LogRecord { level: LogLevel::Debug, message }
    }
}

/// The outcome of a query together with its statement and running time.
pub struct QueryResult<T> {
    result: Result<T, QueryError>,
    sql: String,
    execution_time_ms: Option<u64>,
}

impl<T> QueryResult<T> {
    /// The outcome.
    pub closed spec fn outcome(self) -> Result<T, QueryError> {
        self.result
    }

    /// The statement.
    pub closed spec fn statement(self) -> Seq<char> {
        self.sql@
    }

    /// The running time, if measured.
    pub closed spec fn time(self) -> Option<u64> {
        self.execution_time_ms
    }

    /// A successful query with its value.
    pub fn success(result: T, sql: String, execution_time_ms: Option<u64>) -> (r: Self)
        ensures
            r.outcome() == Ok::<T, QueryError>(result),
            r.statement() == sql@,
            r.time() == execution_time_ms,
    {
        QueryResult { result: Ok(result), sql, execution_time_ms }
    }

    /// A failed query; no running time is kept.
    pub fn error(error: QueryError, sql: String) -> (r: Self)
        ensures
            r.outcome() == Err::<T, QueryError>(error),
            r.statement() == sql@,
            r.time() is None,
    {
        QueryResult { result: Err(error), sql, execution_time_ms: None }
    }

    /// The outcome.
    pub fn into_result(self) -> (r: Result<T, QueryError>)
        ensures
            r == self.outcome(),
    {
        self.result
    }

    /// The value, or `T::default()` for a failed query.
    pub fn unwrap_or_default(self) -> (r: T) where T: Default
        ensures
            self.outcome() matches Ok(v) ==> r == v,
            self.outcome() is Err ==> call_ensures(T::default, (), r),
    {
        match self.result {
            Ok(value) => value,
            Err(_) => T::default(),
        }
    }

    /// The value, or `default` for a failed query.
    pub fn unwrap_or(self, default: T) -> (r: T)
        ensures
            r == (match self.outcome() {
                Ok(v) => v,
                Err(_) => default,
            }),
    {
        match self.result {
            Ok(value) => value,
            Err(_) => default,
        }
    }

    /// The statement.
    pub fn sql(&self) -> (r: &str)
        ensures
            r@ == self.statement(),
    {
        self.sql.as_str()
    }

    /// The running time, if measured.
    pub fn execution_time_ms(&self) -> (r: Option<u64>)
        ensures
            r == self.time(),
    {
        self.execution_time_ms
    }
}

} // verus!
