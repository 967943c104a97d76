use query_engine::strutil::{str_concat, str_eq};
use query_engine::values::{find_column, ResultSet, Value};

#[test]
fn string_helpers() {
    assert!(str_eq("hello", "hello"));
    assert!(!str_eq("hello", "hellO"));
    assert!(str_eq("", ""));
    assert_eq!(str_concat("SELECT ", "1"), "SELECT 1");
}

#[test]
fn value_equality_is_by_contents() {
    assert!(Value::Text(String::from("a")).eq_value(&Value::Text(String::from("a"))));
    assert!(!Value::Text(String::from("a")).eq_value(&Value::Text(String::from("b"))));
    assert!(Value::Null.eq_value(&Value::Null));
    assert!(!Value::Null.eq_value(&Value::Int64(0)));
    assert!(Value::Bytes(vec![1, 2]).eq_value(&Value::Bytes(vec![1, 2])));
    assert!(!Value::Bytes(vec![1, 2]).eq_value(&Value::Bytes(vec![1, 3])));
    assert!(Value::Int32(5).eq_value(&Value::Int32(5)));
    assert!(!Value::Int32(5).eq_value(&Value::Int64(5)));
    assert!(Value::DateTime(1_700_000_000_000).eq_value(&Value::DateTime(1_700_000_000_000)));
}

#[test]
fn value_text_accessors() {
    assert!(Value::Null.is_null());
    assert!(!Value::Boolean(false).is_null());
    assert_eq!(Value::Text(String::from("v")).to_text(), Some(String::from("v")));
    assert_eq!(Value::Int64(3).to_text(), None);
}

#[test]
fn result_set_access() {
    let rs = ResultSet::new(
        vec![String::from("id"), String::from("name")],
        vec![
            vec![Value::Int64(1), Value::Text(String::from("a"))],
            vec![Value::Int64(2), Value::Text(String::from("b"))],
        ],
    );
    assert_eq!(rs.len(), 2);
    assert!(rs.get(2).is_none());
    let row = rs.get(1).expect("row 1 exists");
    assert!(matches!(row[0], Value::Int64(2)));

    let empty = ResultSet::empty();
    assert_eq!(empty.len(), 0);
}

#[test]
fn find_column_returns_the_first_match() {
    let columns = vec![String::from("id"), String::from("name"), String::from("id")];
    assert_eq!(find_column(&columns, "id"), Some(0));
    assert_eq!(find_column(&columns, "name"), Some(1));
    assert_eq!(find_column(&columns, "missing"), None);
}
