use asspp_core::manifest::{build_manifest, escape_xml, WHITE_PNG};
use asspp_core::types::Software;

fn test_software() -> Software {
    Software {
        id: 1,
        bundle_id: "com.example.app".into(),
        name: "Test App".into(),
        version: "1.0".into(),
        price_bits: None,
        artist_name: "Test".into(),
        seller_name: "Test".into(),
        description: "A test".into(),
        average_user_rating_bits: 0.0f64.to_bits(),
        user_rating_count: 0,
        artwork_url: String::new(),
        screenshot_urls: vec![],
        minimum_os_version: "16.0".into(),
        file_size_bytes: None,
        release_date: "2024-01-01".into(),
        release_notes: None,
        formatted_price: None,
        primary_genre_name: "Utilities".into(),
    }
}

#[test]
fn test_build_manifest_structure() {
    let sw = test_software();
    let xml = build_manifest(
        &sw,
        "https://example.com/payload.ipa",
        "https://example.com/small.png",
        "https://example.com/large.png",
    );

    assert!(xml.starts_with("<?xml"));
    assert!(xml.contains("<!DOCTYPE plist"));
    assert!(xml.contains("<string>software-package</string>"));
    assert!(xml.contains("<string>display-image</string>"));
    assert!(xml.contains("<string>full-size-image</string>"));
    assert!(xml.contains("<string>https://example.com/payload.ipa</string>"));
    assert!(xml.contains("<string>com.example.app</string>"));
    assert!(xml.contains("<string>1.0</string>"));
    assert!(xml.contains("<string>Test App</string>"));
    assert!(xml.contains("<string>software</string>"));
}

#[test]
fn test_build_manifest_xml_escaping() {
    let mut sw = test_software();
    sw.name = "App & \"Friends\" <More>".into();
    let xml = build_manifest(&sw, "https://a.com/b?x=1&y=2", "", "");
    assert!(xml.contains("App &amp; &quot;Friends&quot; &lt;More&gt;"));
    assert!(xml.contains("https://a.com/b?x=1&amp;y=2"));
}

#[test]
fn manifest_is_a_property_list_with_the_values_in_place() {
    let sw = test_software();
    let xml = build_manifest(&sw, "P", "S", "L");
    let tree = asspp_core::plist_util::parse_plist(xml.as_bytes()).unwrap();
    match tree {
        asspp_core::plist_util::PlistValue::Dictionary(entries) => {
            assert_eq!(entries.len(), 1);
            assert_eq!(entries[0].0, "items");
        }
        _ => panic!("expected a dictionary"),
    }
    let p = xml.find("<string>P</string>").unwrap();
    let s = xml.find("<string>S</string>").unwrap();
    let l = xml.find("<string>L</string>").unwrap();
    let b = xml.find("<string>com.example.app</string>").unwrap();
    let v = xml.find("<string>1.0</string>").unwrap();
    let t = xml.find("<string>Test App</string>").unwrap();
    assert!(p < s && s < l && l < b && b < v && v < t);
    assert!(xml.ends_with("</plist>"));
}

#[test]
fn escape_xml_examples() {
    assert_eq!(escape_xml("a&b<c>d\"e'f"), "a&amp;b&lt;c&gt;d&quot;e&apos;f");
    assert_eq!(escape_xml(""), "");
    assert_eq!(escape_xml("plain \u{e9}"), "plain \u{e9}");
    assert_eq!(escape_xml("&amp;"), "&amp;amp;");
}

#[test]
fn test_white_png_valid() {
    assert_eq!(WHITE_PNG.len(), 70);
    // PNG magic bytes
    assert_eq!(&WHITE_PNG[0..4], &[0x89, 0x50, 0x4e, 0x47]);
    // IEND chunk
    assert_eq!(
        &WHITE_PNG[WHITE_PNG.len() - 8..],
        &[0x49, 0x45, 0x4e, 0x44, 0xae, 0x42, 0x60, 0x82]
    );
}
