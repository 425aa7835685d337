use quvyn::persistence::{document_file_name, sanitize_path};
use quvyn::reload::ReloadCoordinator;

#[test]
fn sanitizing_keeps_allowed_characters_in_order() {
    assert_eq!("/test/", sanitize_path("/t&*e#öst/"));
    assert_eq!("a-B/9", sanitize_path("a-B/9"));
    assert_eq!("", sanitize_path(""));
    assert_eq!("", sanitize_path("..%$"));
    assert_eq!("etcpasswd", sanitize_path("../etc/passwd").replace('/', ""));
    assert_eq!("/etc/passwd", sanitize_path("../etc/passwd"));
}

#[test]
fn document_file_name_is_lowercase_hex_with_extension() {
    assert_eq!("ffffffffffffffffffffffffffffffff.json", document_file_name(u128::MAX));
    assert_eq!("00000000000000000000000000000000.json", document_file_name(0));
    assert_eq!("0123456789abcdef0123456789abcdef.json", document_file_name(0x0123456789ABCDEF0123456789ABCDEF));
}

#[test]
fn reload_flag_is_consumed_once() {
    let mut coordinator = ReloadCoordinator::new();
    assert!(coordinator.consume_reload_request());
    assert!(!coordinator.consume_reload_request());
    coordinator.request_reload();
    coordinator.request_reload();
    assert!(coordinator.consume_reload_request());
    assert!(!coordinator.consume_reload_request());
}
