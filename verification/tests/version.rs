use alumy::version::{hello, name, version};

#[test]
fn test_version() {
    // the value of CARGO_PKG_VERSION
    assert_eq!(version(), "0.1.0");
    assert_eq!(version().split('.').count(), 3);
}

#[test]
fn test_name() {
    assert_eq!(name(), "alumy");
    assert_eq!(name(), "alumy".to_string());
}

#[test]
fn test_hello() {
    let greeting = hello();
    assert!(greeting.contains("alumy"));
    // the value of CARGO_PKG_VERSION
    assert!(greeting.contains("0.1.0"));
}

#[test]
fn hello_is_exact() {
    assert_eq!(hello(), "Hello from alumy 0.1.0");
}
