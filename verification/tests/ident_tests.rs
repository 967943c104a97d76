use query_engine::ident::{
    is_safe_identifier, quote_ident, reserved_keywords, reserved_type_function_names,
    search_path_param, search_path_via_query, PostgresFlavour,
};

#[test]
fn test_safe_ident() {
    // Safe
    assert!(is_safe_identifier("hello"));
    assert!(is_safe_identifier("_hello"));
    assert!(is_safe_identifier("àbracadabra"));
    assert!(is_safe_identifier("h3ll0"));
    assert!(is_safe_identifier("héllo"));
    assert!(is_safe_identifier("héll0$"));
    assert!(is_safe_identifier("héll_0$"));
    assert!(is_safe_identifier("disconnect_security_must_honor_connect_scope_one2m"));

    // Not safe
    assert!(!is_safe_identifier(""));
    assert!(!is_safe_identifier("Hello"));
    assert!(!is_safe_identifier("hEllo"));
    assert!(!is_safe_identifier("$hello"));
    assert!(!is_safe_identifier("hello!"));
    assert!(!is_safe_identifier("hello#"));
    assert!(!is_safe_identifier("he llo"));
    assert!(!is_safe_identifier(" hello"));
    assert!(!is_safe_identifier("he-llo"));
    assert!(!is_safe_identifier("hÉllo"));
    assert!(!is_safe_identifier("1337"));
    assert!(!is_safe_identifier("_HELLO"));
    assert!(!is_safe_identifier("HELLO"));
    assert!(!is_safe_identifier("HELLO$"));
    assert!(!is_safe_identifier("ÀBRACADABRA"));

    for ident in reserved_keywords() {
        assert!(!is_safe_identifier(ident));
    }

    for ident in reserved_type_function_names() {
        assert!(!is_safe_identifier(ident));
    }
}

#[test]
fn quote_ident_wraps_in_double_quotes() {
    assert_eq!(quote_ident("hello"), "\"hello\"");
    assert_eq!(quote_ident(""), "\"\"");
}

#[test]
fn search_path_via_query_decision() {
    // A multiplexer ignores startup parameters, whatever the flavour.
    assert!(search_path_via_query(PostgresFlavour::Postgres, true, "hello"));
    // An unannounced flavour is handled conservatively.
    assert!(search_path_via_query(PostgresFlavour::Unknown, false, "hello"));
    // The CockroachDB family needs the query only for unsafe identifiers.
    assert!(search_path_via_query(PostgresFlavour::Cockroach, false, "HeLLo"));
    assert!(!search_path_via_query(PostgresFlavour::Cockroach, false, "hello"));
    // PostgreSQL takes the search path as a connection parameter.
    assert!(!search_path_via_query(PostgresFlavour::Postgres, false, "hello"));
}

#[test]
fn search_path_param_per_flavour() {
    assert_eq!(
        search_path_param(PostgresFlavour::Postgres, false, "hello"),
        Some("\"hello\"".to_owned())
    );
    assert_eq!(
        search_path_param(PostgresFlavour::Cockroach, false, "hello"),
        Some("hello".to_owned())
    );
    assert_eq!(search_path_param(PostgresFlavour::Cockroach, false, "HeLLo"), None);
    assert_eq!(search_path_param(PostgresFlavour::Postgres, true, "hello"), None);
    assert_eq!(search_path_param(PostgresFlavour::Unknown, false, "hello"), None);
}
