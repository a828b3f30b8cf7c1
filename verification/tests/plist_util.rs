use asspp_core::plist_util::{
    get_string, get_string_array, parse_plist, xml_to_binary_plist, PlistValue,
};

#[test]
fn test_parse_xml_plist() {
    let xml = br#"<?xml version="1.0" encoding="UTF-8"?>
<!DOCTYPE plist PUBLIC "-//Apple//DTD PLIST 1.0//EN" "http://www.apple.com/DTDs/PropertyList-1.0.dtd">
<plist version="1.0">
<dict>
    <key>CFBundleExecutable</key>
    <string>MyApp</string>
    <key>SinfPaths</key>
    <array>
        <string>SC_Info/MyApp.sinf</string>
    </array>
</dict>
</plist>"#;

    let val = parse_plist(xml).unwrap();
    assert_eq!(get_string(&val, "CFBundleExecutable"), Some("MyApp".into()));
    assert_eq!(
        get_string_array(&val, "SinfPaths"),
        Some(vec!["SC_Info/MyApp.sinf".into()])
    );
}

#[test]
fn test_xml_to_binary_plist() {
    let xml = r#"<?xml version="1.0" encoding="UTF-8"?>
<!DOCTYPE plist PUBLIC "-//Apple//DTD PLIST 1.0//EN" "http://www.apple.com/DTDs/PropertyList-1.0.dtd">
<plist version="1.0">
<dict>
    <key>test</key>
    <string>value</string>
</dict>
</plist>"#;

    let binary = xml_to_binary_plist(xml).unwrap();
    assert!(!binary.is_empty());
    // Binary plist magic: "bplist"
    assert!(binary.starts_with(b"bplist"));

    // Verify roundtrip
    let val = parse_plist(&binary).unwrap();
    assert_eq!(get_string(&val, "test"), Some("value".into()));
}

#[test]
fn test_get_string_missing_key() {
    let xml = br#"<?xml version="1.0" encoding="UTF-8"?>
<plist version="1.0">
<dict>
    <key>a</key>
    <string>b</string>
</dict>
</plist>"#;

    let val = parse_plist(xml).unwrap();
    assert_eq!(get_string(&val, "a"), Some("b".into()));
    assert_eq!(get_string(&val, "missing"), None);
}

#[test]
fn parse_plist_rejects_malformed_input() {
    assert!(parse_plist(b"not a property list").is_none());
    assert!(parse_plist(b"").is_none());
}

#[test]
fn xml_to_binary_plist_reports_parse_failure() {
    let err = xml_to_binary_plist("<plist><dict><key>a</key>").unwrap_err();
    assert!(err.starts_with("Failed to parse XML plist: "));
}

#[test]
fn accessors_fail_soft_on_type_mismatch() {
    let tree = PlistValue::Dictionary(vec![
        ("name".to_string(), PlistValue::String("x".to_string())),
        (
            "list".to_string(),
            PlistValue::Array(vec![
                PlistValue::String("a".to_string()),
                PlistValue::Other,
                PlistValue::Array(vec![]),
                PlistValue::String("b".to_string()),
            ]),
        ),
        ("flag".to_string(), PlistValue::Other),
    ]);
    assert_eq!(get_string(&tree, "name"), Some("x".to_string()));
    assert_eq!(get_string(&tree, "list"), None);
    assert_eq!(get_string(&tree, "flag"), None);
    assert_eq!(get_string(&tree, "absent"), None);
    assert_eq!(
        get_string_array(&tree, "list"),
        Some(vec!["a".to_string(), "b".to_string()])
    );
    assert_eq!(get_string_array(&tree, "name"), None);
    assert_eq!(get_string_array(&tree, "absent"), None);
    assert_eq!(get_string(&PlistValue::String("name".to_string()), "name"), None);
    assert_eq!(get_string_array(&PlistValue::Array(vec![]), "list"), None);
}

#[test]
fn parse_plist_keeps_nested_values_and_order() {
    let xml = br#"<?xml version="1.0" encoding="UTF-8"?>
<plist version="1.0">
<dict>
    <key>n</key>
    <integer>3</integer>
    <key>items</key>
    <array>
        <string>one</string>
        <true/>
        <string>two</string>
    </array>
</dict>
</plist>"#;
    let val = parse_plist(xml).unwrap();
    assert_eq!(get_string(&val, "n"), None);
    assert_eq!(
        get_string_array(&val, "items"),
        Some(vec!["one".to_string(), "two".to_string()])
    );
    match val {
        PlistValue::Dictionary(entries) => {
            assert_eq!(entries.len(), 2);
            assert_eq!(entries[0].0, "n");
            assert!(matches!(entries[0].1, PlistValue::Other));
            assert_eq!(entries[1].0, "items");
        }
        _ => panic!("expected a dictionary"),
    }
}
