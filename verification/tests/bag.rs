use asspp_core::bag::{bag_url, extract_plist, validate_guid};

#[test]
fn test_validate_guid_valid() {
    assert!(validate_guid("abcdef123456"));
    assert!(validate_guid("ABCDEF"));
    assert!(validate_guid("0123456789"));
    assert!(validate_guid("aAbBcC"));
}

#[test]
fn test_validate_guid_invalid() {
    assert!(!validate_guid(""));
    assert!(!validate_guid("xyz"));
    assert!(!validate_guid("ab cd"));
    assert!(!validate_guid("ab-cd"));
    assert!(!validate_guid("hello!"));
}

#[test]
fn guid_accepts_exactly_hex_digits() {
    for c in 0u8..128 {
        let s = (c as char).to_string();
        assert_eq!(validate_guid(&s), (c as char).is_ascii_hexdigit(), "{:?}", s);
    }
    assert!(!validate_guid("\u{ff11}"));
    assert!(!validate_guid("abc\u{e9}"));
}

#[test]
fn test_bag_url() {
    assert_eq!(
        bag_url("abcdef123456"),
        "https://init.itunes.apple.com/bag.xml?guid=abcdef123456"
    );
}

#[test]
fn bag_url_percent_encodes() {
    assert_eq!(
        bag_url("a b&c/\u{e9}~_.-"),
        "https://init.itunes.apple.com/bag.xml?guid=a%20b%26c%2F%C3%A9~_.-"
    );
    assert_eq!(bag_url(""), "https://init.itunes.apple.com/bag.xml?guid=");
}

#[test]
fn test_extract_plist() {
    let body = r#"<?xml version="1.0"?>
some garbage
<plist version="1.0">
<dict>
  <key>test</key>
  <string>value</string>
</dict>
</plist>
more garbage"#;

    let result = extract_plist(body).unwrap();
    assert!(result.starts_with("<plist"));
    assert!(result.ends_with("</plist>"));
    assert!(result.contains("<key>test</key>"));
}

#[test]
fn test_extract_plist_not_found() {
    assert!(extract_plist("no plist here").is_none());
}

#[test]
fn extract_plist_edges() {
    assert_eq!(extract_plist("a<plist>b</plist>c"), Some("<plist>b</plist>"));
    assert_eq!(extract_plist("<plist>x</plist></plist>"), Some("<plist>x</plist>"));
    assert_eq!(extract_plist("\u{e9}\u{e9}<plist>\u{fc}</plist>z"), Some("<plist>\u{fc}</plist>"));
    assert_eq!(extract_plist("<plist> only"), None);
    assert_eq!(extract_plist("only </plist>"), None);
    assert_eq!(extract_plist("</plist><plist"), Some(""));
    assert_eq!(extract_plist("</plist> <plist"), None);
}
