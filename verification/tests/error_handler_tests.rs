use aios_surreal::error_handler::{
    HandleError, LogLevel, QueryError, QueryErrorHandler, QueryResult,
};

#[test]
fn test_query_error_conversion() {
    let query_error = QueryError::ExecutionError {
        sql: "SELECT * FROM pe".to_string(),
        message: "Table not found".to_string(),
    };

    let handle_error: HandleError = HandleError::from(query_error);
    match handle_error {
        HandleError::QueryErr { sql, msg, .. } => {
            assert_eq!(sql, "SELECT * FROM pe");
            assert_eq!(msg, "Table not found");
        }
        _ => panic!("Unexpected error type"),
    }
    let c = surrealdb::Error::connection("link down".to_string(), None);
    match QueryError::from_surreal_error(&c) {
        QueryError::ConnectionError { message } => assert_eq!(message, "link down"),
        _ => panic!("Unexpected error type"),
    }
}

#[test]
fn test_query_result_success() {
    let result = QueryResult::success(42, "SELECT COUNT(*) FROM pe".to_string(), Some(150));
    assert_eq!(result.into_result().ok().unwrap(), 42);
}

#[test]
fn other_errors_convert_to_database_errors_with_their_text() {
    let h = HandleError::from(QueryError::TimeoutError);
    match h {
        HandleError::SurrealError { msg } => {
            assert_eq!(msg, "Timeout error: query took too long to execute")
        }
        _ => panic!("Unexpected error type"),
    }
    let h = HandleError::from(QueryError::CacheError { message: "full".to_string() });
    match h {
        HandleError::SurrealError { msg } => assert_eq!(msg, "Cache error: full"),
        _ => panic!("Unexpected error type"),
    }
    let h = HandleError::from(QueryError::ConnectionError { message: "down".to_string() });
    match h {
        HandleError::SurrealError { msg } => assert_eq!(msg, "down"),
        _ => panic!("Unexpected error type"),
    }
    let h = HandleError::from(QueryError::NoResultsError { sql: "S".to_string() });
    match h {
        HandleError::QueryNullErr { sql, .. } => assert_eq!(sql, "S"),
        _ => panic!("Unexpected error type"),
    }
    let h = HandleError::from(QueryError::DeserializationError {
        target_type: "Pe".to_string(),
        message: "bad".to_string(),
    });
    match h {
        HandleError::DeserializeErr { struct_name, msg, sql, .. } => {
            assert_eq!(struct_name, "Pe");
            assert_eq!(msg, "bad");
            assert_eq!(sql, "unknown");
        }
        _ => panic!("Unexpected error type"),
    }
}

#[test]
fn error_texts_follow_their_templates() {
    let e = QueryErrorHandler::handle_execution_error("SELECT 1", "boom".to_string());
    assert_eq!(e.message_text(), "Query execution error: SELECT 1 - boom");
    let e = QueryErrorHandler::handle_deserialization_error("Pe", "bad".to_string());
    assert_eq!(e.message_text(), "Deserialization error for Pe: bad");
    let e = QueryErrorHandler::handle_no_results_error("SELECT 2");
    assert_eq!(e.message_text(), "Query returned no results: SELECT 2");
    let e = QueryErrorHandler::handle_connection_error("refused".to_string());
    assert_eq!(e.message_text(), "Database connection error: refused");
    let e = QueryErrorHandler::handle_cache_error("full".to_string());
    assert_eq!(e.message_text(), "Cache error: full");
    let e = QueryError::InvalidParametersError { message: "x".to_string() };
    assert_eq!(e.message_text(), "Invalid query parameters: x");
}

#[test]
fn slow_queries_are_logged_as_warnings() {
    let r = QueryErrorHandler::log_query_execution("SELECT 1", 1001);
    assert_eq!(r.level, LogLevel::Warn);
    assert_eq!(r.message, "Slow query detected (1001ms): SELECT 1");
    let r = QueryErrorHandler::log_query_execution("SELECT 1", 1000);
    assert_eq!(r.level, LogLevel::Debug);
    assert_eq!(r.message, "Query executed (1000ms): SELECT 1");
    let r = QueryErrorHandler::log_query_results("SELECT 1", 7);
    assert_eq!(r.level, LogLevel::Debug);
    assert_eq!(r.message, "Query returned 7 results: SELECT 1");
}

#[test]
fn query_result_fallbacks() {
    let ok = QueryResult::success(5u32, "S".to_string(), None);
    assert_eq!(ok.sql(), "S");
    assert_eq!(ok.execution_time_ms(), None);
    assert_eq!(ok.unwrap_or(9), 5);
    let err: QueryResult<u32> = QueryResult::error(QueryError::TimeoutError, "T".to_string());
    assert_eq!(err.sql(), "T");
    assert_eq!(err.execution_time_ms(), None);
    assert_eq!(err.unwrap_or(9), 9);
    let err: QueryResult<u32> = QueryResult::error(QueryError::TimeoutError, "T".to_string());
    assert_eq!(err.unwrap_or_default(), 0);
    let timed = QueryResult::success(1u8, "S".to_string(), Some(12));
    assert_eq!(timed.execution_time_ms(), Some(12));
    assert!(timed.into_result().is_ok());
}

#[test]
fn client_failures_are_classified() {
    let e = QueryError::from_client_failure(true, "gone".to_string());
    assert_eq!(e.message_text(), "Database connection error: gone");
    let e = QueryError::from_client_failure(false, "bad sql".to_string());
    assert_eq!(e.message_text(), "Query execution error: unknown - bad sql");
}

#[test]
fn surreal_errors_convert_by_kind() {
    let e = surrealdb::Error::internal("boom".to_string());
    let q = QueryError::from_surreal_error(&e);
    match q {
        QueryError::ExecutionError { sql, message } => {
            assert_eq!(sql, "unknown");
            assert!(message.contains("boom"));
        }
        _ => panic!("Unexpected error type"),
    }
}
