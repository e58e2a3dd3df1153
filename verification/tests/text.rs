use balthazar::text::{last_segment, starts_with, str_eq};

#[test]
fn texts_compare_by_their_characters() {
    assert!(str_eq("", ""));
    assert!(str_eq("thread.id", "thread.id"));
    assert!(!str_eq("thread.id", "thread.i"));
    assert!(!str_eq("thread.i", "thread.id"));
    assert!(!str_eq("thread.id", "thread.ie"));
    assert!(!str_eq("", "a"));
    assert!(str_eq("é", "é"));
    assert!(!str_eq("é", "e"));
}

#[test]
fn prefixes() {
    assert!(starts_with("orders::billing", "orders"));
    assert!(!starts_with("hyper::client", "orders"));
    assert!(starts_with("abc", ""));
    assert!(starts_with("abc", "abc"));
    assert!(!starts_with("ab", "abc"));
    assert!(!starts_with("", "a"));
    assert!(starts_with("", ""));
    assert!(starts_with("éa", "é"));
    assert!(!starts_with("éa", "e"));
}

#[test]
fn last_segments() {
    assert_eq!(last_segment("svc::module::Handler"), "Handler");
    assert_eq!(last_segment("Handler"), "Handler");
    assert_eq!(last_segment(":"), ":");
    assert_eq!(last_segment("::"), "");
    assert_eq!(last_segment(":::"), ":");
}
