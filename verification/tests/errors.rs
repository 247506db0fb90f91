use winit::error::{push_decimal, ExternalError, NotSupportedError, OsError};

#[test]
fn not_supported_error_text() {
    let e = NotSupportedError::new();
    assert_eq!(
        e.to_string(),
        "the requested operation is not supported by Winit"
    );
}

#[test]
fn os_error_text() {
    let e = OsError::new(42, "src/window.rs", String::from("Access is denied."));
    assert_eq!(e.to_string(), "os error at src/window.rs:42: Access is denied.");
}

#[test]
fn os_error_text_line_zero_and_large() {
    let e = OsError::new(0, "a.rs", String::new());
    assert_eq!(e.to_string(), "os error at a.rs:0: ");
    let e = OsError::new(u32::MAX, "b.rs", String::from("x"));
    assert_eq!(e.to_string(), "os error at b.rs:4294967295: x");
}

#[test]
fn external_error_shows_what_it_holds() {
    let e = ExternalError::NotSupported(NotSupportedError::new());
    assert_eq!(
        e.to_string(),
        "the requested operation is not supported by Winit"
    );
    let e = ExternalError::Os(OsError::new(7, "lib.rs", String::from("bad handle")));
    assert_eq!(e.to_string(), "os error at lib.rs:7: bad handle");
}

#[test]
fn decimal_notation() {
    for n in [0u32, 1, 9, 10, 99, 100, 1000000, 1234567890, u32::MAX] {
        let mut s = String::from("n=");
        push_decimal(&mut s, n);
        assert_eq!(s, format!("n={}", n));
    }
}

#[test]
fn not_supported_error_clones() {
    let e = NotSupportedError::new();
    let f = e.clone();
    assert_eq!(f.to_string(), e.to_string());
}

#[test]
fn not_supported_error_debug_shows_its_name() {
    assert_eq!(format!("{:?}", NotSupportedError::new()), "NotSupportedError");
    let e = ExternalError::NotSupported(NotSupportedError::new());
    assert_eq!(format!("{:?}", e), "NotSupported(NotSupportedError)");
}
