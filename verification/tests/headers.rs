use coinbase_rs::headers::Headers;

#[test]
fn new_headers_are_empty() {
    let headers = Headers::new();
    assert_eq!(headers.len(), 0);
    assert_eq!(headers.get("Accept"), None);
}

#[test]
fn insert_sets_a_field() {
    let headers = Headers::new().insert("Accept", "text/html").insert("X-Trace", "1");
    assert_eq!(headers.len(), 2);
    assert_eq!(headers.get("Accept"), Some("text/html"));
    assert_eq!(headers.get("X-Trace"), Some("1"));
    assert_eq!(headers.get("accept"), None);
}

#[test]
fn insert_replaces_the_value_of_a_name() {
    let headers = Headers::new()
        .insert("Accept", "text/html")
        .insert("X-Trace", "1")
        .insert("Accept", "application/json");
    assert_eq!(headers.len(), 2);
    assert_eq!(headers.get("Accept"), Some("application/json"));
    assert_eq!(headers.get("X-Trace"), Some("1"));
}

#[test]
fn entries_come_in_the_order_of_first_insertion() {
    let headers = Headers::new().insert("b", "1").insert("a", "2").insert("b", "3");
    assert_eq!(headers.entry(0), Some(("b", "3")));
    assert_eq!(headers.entry(1), Some(("a", "2")));
    assert_eq!(headers.entry(2), None);
}

#[test]
fn a_clone_holds_the_same_fields() {
    let headers = Headers::new().insert("b", "1").insert("a", "2");
    let copy = headers.clone();
    assert_eq!(copy.len(), 2);
    assert_eq!(copy.get("a"), Some("2"));
    assert_eq!(copy.get("b"), Some("1"));
}
