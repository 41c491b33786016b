use aios_surreal::resilience::{
    is_connection_dead, is_namespace_empty_error, namespace_prefixed_sql, resolve_query_timeout,
};

#[test]
fn classifies_timeout_as_dead() {
    assert!(is_connection_dead("query timeout after 30s"));
}

#[test]
fn classifies_websocket_as_dead() {
    assert!(is_connection_dead("WebSocket failed: connection reset"));
}

#[test]
fn classifies_channel_closed_as_dead() {
    assert!(is_connection_dead(
        "Failed to send query results to channel: SendError(..)"
    ));
}

#[test]
fn keeps_business_error_alive() {
    assert!(!is_connection_dead("namespace not found"));
    assert!(!is_connection_dead("permission denied: missing role"));
}

#[test]
fn classifies_upper_case_markers_through_lowercasing() {
    assert!(is_connection_dead("BROKEN PIPE"));
    assert!(is_connection_dead("IO Error: refused"));
    assert!(!is_connection_dead(""));
}

#[test]
fn namespace_empty_errors_are_recognised() {
    assert!(is_namespace_empty_error("Specify a namespace to use"));
    assert!(is_namespace_empty_error("error: NamespaceEmpty"));
    assert!(!is_namespace_empty_error("specify a namespace to use"));
}

#[test]
fn namespace_prefix_is_added_with_escaped_names() {
    let r = namespace_prefixed_sql("SELECT * FROM pe", "1516", "AvevaMarineSample");
    assert_eq!(
        r,
        Some("USE NS `1516` DB `AvevaMarineSample`;\nSELECT * FROM pe".to_string())
    );
    let r = namespace_prefixed_sql("SELECT 1", "a`b", "db");
    assert_eq!(r, Some("USE NS `a\\`b` DB `db`;\nSELECT 1".to_string()));
}

#[test]
fn namespace_prefix_is_skipped_when_already_selected_or_blank() {
    assert_eq!(namespace_prefixed_sql("  use ns x db y; SELECT 1", "n", "d"), None);
    assert_eq!(namespace_prefixed_sql("SELECT 1", "  ", "d"), None);
    assert_eq!(namespace_prefixed_sql("SELECT 1", "n", ""), None);
}

#[test]
fn query_timeout_reads_positive_decimals() {
    assert_eq!(resolve_query_timeout(None), 30000);
    assert_eq!(resolve_query_timeout(Some(" 1500 ")), 1500);
    assert_eq!(resolve_query_timeout(Some("+20")), 20);
    assert_eq!(resolve_query_timeout(Some("0")), 30000);
    assert_eq!(resolve_query_timeout(Some("-5")), 30000);
    assert_eq!(resolve_query_timeout(Some("abc")), 30000);
    assert_eq!(resolve_query_timeout(Some("18446744073709551616")), 30000);
    assert_eq!(resolve_query_timeout(Some("18446744073709551615")), 18446744073709551615);
}

#[test]
fn prefixed_statement_is_not_prefixed_again() {
    let once = namespace_prefixed_sql("SELECT 1", "ns", "db").unwrap();
    assert_eq!(namespace_prefixed_sql(&once, "other", "names"), None);
}
