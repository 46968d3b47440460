use shell_supervisor::about::{
    about_url, encode_build_stamp, BuildInfo, ABOUT_WINDOW_LABEL, ABOUT_WINDOW_TITLE,
};

fn info(desktop_build: &str, daemon_build: &str) -> BuildInfo {
    BuildInfo {
        desktop_version: "0.2.1".to_string(),
        desktop_hash: "abc1234".to_string(),
        desktop_build: desktop_build.to_string(),
        daemon_version: "0.5.0".to_string(),
        daemon_hash: "def5678".to_string(),
        daemon_build: daemon_build.to_string(),
    }
}

#[test]
fn about_address_encodes_the_build_stamps() {
    assert_eq!(
        about_url(&info("2025-05-01 10:20:30", "2025-04-30T08:00:00Z")),
        "about/#desktop_version=0.2.1&desktop_hash=abc1234&desktop_build=2025-05-01%2010%3A20%3A30\
         &daemon_version=0.5.0&daemon_hash=def5678&daemon_build=2025-04-30T08%3A00%3A00Z"
    );
    assert_eq!(ABOUT_WINDOW_LABEL, "about");
    assert_eq!(ABOUT_WINDOW_TITLE, "About SyftBox");
}

#[test]
fn about_address_keeps_unreserved_characters() {
    let url = about_url(&info("Az09-._~", ""));
    assert!(url.contains("&desktop_build=Az09-._~&"));
    assert!(url.ends_with("&daemon_build="));
}

#[test]
fn about_address_encodes_separators_and_other_scripts() {
    let url = about_url(&info("a&b=c#d%e", "\u{e9}\u{4e2d}"));
    assert!(url.contains("&desktop_build=a%26b%3Dc%23d%25e&"));
    assert!(url.ends_with("&daemon_build=%C3%A9%E4%B8%AD"));
}

#[test]
fn encoded_build_stamps_hold_only_safe_characters() {
    let every_character: String = (0u32..=0x2ff).filter_map(char::from_u32).collect();
    let url = about_url(&info(&every_character, ""));
    let start = url.find("&desktop_build=").expect("field") + "&desktop_build=".len();
    let end = url.find("&daemon_version=").expect("field");
    let encoded = &url[start..end];
    assert!(!encoded.is_empty());
    assert!(encoded
        .chars()
        .all(|c| c.is_ascii_alphanumeric() || matches!(c, '-' | '.' | '_' | '~' | '%')));
    assert!(encoded.starts_with("%00%01"));
    assert!(encoded.contains("%2F0123456789%3A"));
}

#[test]
fn build_stamp_fields() {
    assert_eq!(encode_build_stamp(""), "");
    assert_eq!(encode_build_stamp("2025-05-01 10:20:30"), "2025-05-01%2010%3A20%3A30");
    assert_eq!(encode_build_stamp("a&b=c#d"), "a%26b%3Dc%23d");
}
