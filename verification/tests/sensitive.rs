use balthazar::lang::MASK;
use balthazar::Sensitive;
use std::ops::Deref;
use std::str::FromStr;

#[test]
fn test_sensitive_string() {
    let secret = "123456";
    let sensitive = Sensitive::<String>(secret.to_string());

    // it hides the content when displayed and when inspected
    assert_eq!(sensitive.to_string(), MASK);
    assert_eq!(format!("{}", sensitive.to_string()), MASK);
    assert_eq!(
        sensitive.to_debug_string(),
        format!("Sensitive<T>(\"{}\")", MASK)
    );

    // it allows access to the secret string when requested
    let sensitive_deref: &str = &sensitive;
    assert_eq!(sensitive_deref, secret);
}

#[test]
fn test_sensitive_into() {
    let s: Sensitive<String> = "123456".to_string().into();
    assert_eq!(s.deref(), "123456");

    let v: Sensitive<Vec<u8>> = vec![1, 2, 3].into();
    assert_eq!(*v.deref(), vec![1, 2, 3]);
}

#[test]
fn sensitive_new_keeps_the_value() {
    let s = Sensitive::new(41u32);
    assert_eq!(*s.get(), 41);
    assert_eq!(*s, 41);
    assert_eq!(s.to_string(), "******");
}

#[test]
fn sensitive_from_str_wraps_the_text() {
    let s = Sensitive::<String>::from_str("hunter2").unwrap();
    assert_eq!(s.get(), "hunter2");
    assert_eq!(s.to_string(), MASK);
    assert_eq!(s.to_debug_string(), "Sensitive<T>(\"******\")");
}

#[test]
fn mask_does_not_depend_on_the_value() {
    let a = Sensitive::new("a".to_string());
    let b = Sensitive::new("a much longer secret".to_string());
    assert_eq!(a.to_string(), b.to_string());
    assert_eq!(a.to_debug_string(), b.to_debug_string());
}
