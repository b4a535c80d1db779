use launcher_update::platform::Platform;
use launcher_update::urls::{binary_name, binary_url, version_url};
use launcher_update::version::{need_update, version_differs};

#[test]
fn need_update_when_remote_differs() {
    let current = String::from("1.2.2");
    assert!(need_update("1.2.3", &current));
}

#[test]
fn no_update_when_remote_equal() {
    let current = String::from("1.2.3");
    assert!(!need_update("1.2.3", &current));
}

#[test]
fn need_update_trims_surrounding_whitespace() {
    let current = String::from("1.2.3");
    assert!(!need_update(" 1.2.3\n", &current));
    assert!(!need_update("\t1.2.3 \r\n", &current));
}

#[test]
fn need_update_is_case_sensitive() {
    let current = String::from("V1.2.3");
    assert!(need_update("v1.2.3", &current));
}

#[test]
fn need_update_ignores_lexical_order() {
    // A lexically "older"-looking remote string still counts as an update.
    let current = String::from("2.0.0");
    assert!(need_update("1.9.9", &current));
}

#[test]
fn version_differs_is_plain_inequality() {
    let a = String::from("abc");
    let b = String::from("abd");
    assert!(version_differs(&a, &b));
    assert!(!version_differs(&a, &a));
    let empty = String::new();
    assert!(version_differs(&a, &empty));
    assert!(!version_differs(&empty, &empty));
}

#[test]
fn version_url_under_server_base() {
    assert_eq!(
        version_url("https://example.org"),
        "https://example.org/launcher/version.txt"
    );
}

#[test]
fn binary_name_per_platform() {
    assert_eq!(binary_name("launcher", Platform::Windows), "launcher.exe");
    assert_eq!(binary_name("launcher", Platform::Linux), "launcher_linux");
    assert_eq!(binary_name("launcher", Platform::Macos), "launcher_macos");
}

#[test]
fn binary_url_under_server_base() {
    let name = binary_name("launcher", Platform::Linux);
    assert_eq!(
        binary_url("https://example.org", &name),
        "https://example.org/launcher/launcher_linux"
    );
}
