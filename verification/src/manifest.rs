//! The manifest that tells a device where to fetch a package from for
//! installation, and the icon that stands for every package.

use crate::text;
use crate::types::Software;
use vstd::prelude::*;
use vstd::string::StringExecFns;

verus! {

/// The manifest up to the address of the package.
pub const MANIFEST_HEAD: &'static str =
    "<?xml version=\"1.0\" encoding=\"UTF-8\"?>\n<!DOCTYPE plist PUBLIC \"-//Apple//DTD PLIST 1.0//EN\" \"http://www.apple.com/DTDs/PropertyList-1.0.dtd\">\n<plist version=\"1.0\">\n<dict>\n    <key>items</key>\n    <array>\n        <dict>\n            <key>assets</key>\n            <array>\n                <dict>\n                    <key>kind</key>\n                    <string>software-package</string>\n                    <key>url</key>\n                    <string>";

/// What stands between the address of the package and that of the small image.
pub const MANIFEST_AFTER_PAYLOAD: &'static str =
    "</string>\n                </dict>\n                <dict>\n                    <key>kind</key>\n                    <string>display-image</string>\n                    <key>url</key>\n                    <string>";

/// What stands between the addresses of the two images.
pub const MANIFEST_AFTER_SMALL_IMAGE: &'static str =
    "</string>\n                </dict>\n                <dict>\n                    <key>kind</key>\n                    <string>full-size-image</string>\n                    <key>url</key>\n                    <string>";

/// What stands between the address of the large image and the bundle identifier.
pub const MANIFEST_AFTER_LARGE_IMAGE: &'static str =
    "</string>\n                </dict>\n            </array>\n            <key>metadata</key>\n            <dict>\n                <key>bundle-identifier</key>\n                <string>";

/// What stands between the bundle identifier and the version.
pub const MANIFEST_AFTER_BUNDLE: &'static str =
    "</string>\n                <key>bundle-version</key>\n                <string>";

/// What stands between the version and the title.
pub const MANIFEST_AFTER_VERSION: &'static str =
    "</string>\n                <key>kind</key>\n                <string>software</string>\n                <key>title</key>\n                <string>";

/// What stands after the title.
pub const MANIFEST_TAIL: &'static str =
    "</string>\n            </dict>\n        </dict>\n    </array>\n</dict>\n</plist>";

/// A white PNG image of one pixel (70 bytes).
pub const WHITE_PNG: [u8; 70] = [
    0x89, 0x50, 0x4e, 0x47, 0x0d, 0x0a, 0x1a, 0x0a, 0x00, 0x00, 0x00, 0x0d,
    0x49, 0x48, 0x44, 0x52, 0x00, 0x00, 0x00, 0x01, 0x00, 0x00, 0x00, 0x01,
    0x08, 0x06, 0x00, 0x00, 0x00, 0x1f, 0x15, 0xc4, 0x89, 0x00, 0x00, 0x00,
    0x0b, 0x49, 0x44, 0x41, 0x54, 0x08, 0xd7, 0x63, 0xf8, 0xff, 0xff, 0xff,
    0x0f, 0x00, 0x09, 0x06, 0x03, 0x01, 0x30, 0x74, 0x44, 0xbb, 0x00, 0x00,
    0x00, 0x00, 0x49, 0x45, 0x4e, 0x44, 0xae, 0x42, 0x60, 0x82,
];

/// The text that stands for `c` in XML: the five characters with a meaning
/// in markup become entities, every other stands for itself.
pub open spec fn escaped_char(c: char) -> Seq<char> {
    if c == '&' {
        "&amp;"@
    } else if c == '<' {
        "&lt;"@
    } else if c == '>' {
        "&gt;"@
    } else if c == '"' {
        "&quot;"@
    } else if c == '\'' {
        "&apos;"@
    } else {
        seq![c]
    }
}

/// `s` with every character escaped for XML.
pub open spec fn escaped(s: Seq<char>) -> Seq<char>
    decreases s.len(),
{
    if s.len() == 0 {
        Seq::empty()
    } else {
        escaped(s.drop_last()) + escaped_char(s.last())
    }
}

/// Escapes `s` for use as text or attribute value in XML.
pub fn escape_xml(s: &str) -> (out: String)
    ensures
        out@ == escaped(s@),
{
    let v = text::chars_of(s);
    let mut out: Vec<char> = Vec::new();
    let mut i: usize = 0;
    while i < v.len()
        invariant
            i <= v.len(),
            out@ == escaped(v@.take(i as int)),
        decreases v.len() - i,
    {
        assert(v@.take(i + 1).drop_last() =~= v@.take(i as int));
        let c = v[i];
        if c == '&' {
            text::push_str(&mut out, "&amp;");
        } else if c == '<' {
            text::push_str(&mut out, "&lt;");
        } else if c == '>' {
            text::push_str(&mut out, "&gt;");
        } else if c == '"' {
            text::push_str(&mut out, "&quot;");
        } else if c == '\'' {
            text::push_str(&mut out, "&apos;");
        } else {
            out.push(c);
            assert(out@ =~= escaped(v@.take(i as int)) + seq![c]);
        }
        i += 1;
    }
    assert(v@.take(v.len() as int) =~= v@);
    text::string_of(&out)
}

/// The manifest for a package: the fixed text with the six values in their
/// places, each escaped.
pub open spec fn manifest_text(
    payload_url: Seq<char>,
    small_image_url: Seq<char>,
    large_image_url: Seq<char>,
    bundle_id: Seq<char>,
    version: Seq<char>,
    title: Seq<char>,
) -> Seq<char> {
    MANIFEST_HEAD@ + escaped(payload_url) + MANIFEST_AFTER_PAYLOAD@ + escaped(small_image_url)
        + MANIFEST_AFTER_SMALL_IMAGE@ + escaped(large_image_url) + MANIFEST_AFTER_LARGE_IMAGE@
        + escaped(bundle_id) + MANIFEST_AFTER_BUNDLE@ + escaped(version) + MANIFEST_AFTER_VERSION@
        + escaped(title) + MANIFEST_TAIL@
}

/// The installation manifest of `software`: where the package and its two
/// images are fetched from, and its bundle identifier, version and name.
pub fn build_manifest(
    software: &Software,
    payload_url: &str,
    display_image_small_url: &str,
    display_image_large_url: &str,
) -> (xml: String)
    ensures
        xml@ == manifest_text(
            payload_url@,
            display_image_small_url@,
            display_image_large_url@,
            software.bundle_id@,
            software.version@,
            software.name@,
        ),
{
    let mut xml = String::from_str(MANIFEST_HEAD);
    xml.append(escape_xml(payload_url).as_str());
    xml.append(MANIFEST_AFTER_PAYLOAD);
    xml.append(escape_xml(display_image_small_url).as_str());
    xml.append(MANIFEST_AFTER_SMALL_IMAGE);
    xml.append(escape_xml(display_image_large_url).as_str());
    xml.append(MANIFEST_AFTER_LARGE_IMAGE);
    xml.append(escape_xml(software.bundle_id.as_str()).as_str());
    xml.append(MANIFEST_AFTER_BUNDLE);
    xml.append(escape_xml(software.version.as_str()).as_str());
    xml.append(MANIFEST_AFTER_VERSION);
    xml.append(escape_xml(software.name.as_str()).as_str());
    xml.append(MANIFEST_TAIL);
    xml
}

} // verus!
