//! The bag request: its address for a device identifier, and the property
//! list inside its response.

use crate::text;
use vstd::prelude::*;
use vstd::string::StrSliceExecFns;
use vstd::string::StringExecFns;
use vstd::string::StringSliceAdditionalSpecFns;

verus! {

/// The user agent of bag requests.
pub const BAG_USER_AGENT: &'static str =
    "Configurator/2.17 (Macintosh; OS X 15.2; 24C5089c) AppleWebKit/0620.1.16.11.6";

/// The largest bag response that is read, in bytes (1 MB).
pub const BAG_MAX_RESPONSE_BYTES: usize = 1048576;

/// How long a bag request may take, in seconds.
pub const BAG_TIMEOUT_SECS: u64 = 15;

/// `guid` is not empty and holds hexadecimal digits only.
pub open spec fn valid_guid(guid: Seq<char>) -> bool {
    guid.len() > 0 && forall|i: int| 0 <= i < guid.len() ==> text::is_hex_digit(#[trigger] guid[i])
}

/// Whether `guid` is a device identifier: hexadecimal digits, at least one.
pub fn validate_guid(guid: &str) -> (b: bool)
    ensures
        b == valid_guid(guid@),
{
    let v = text::chars_of(guid);
    if v.len() == 0 {
        return false;
    }
    let mut i: usize = 0;
    while i < v.len()
        invariant
            i <= v.len(),
            v@ == guid@,
            forall|k: int| 0 <= k < i ==> text::is_hex_digit(#[trigger] v@[k]),
        decreases v.len() - i,
    {
        if !text::char_is_hex_digit(v[i]) {
            return false;
        }
        i += 1;
    }
    true
}

/// The byte stands for itself in percent-encoding: an ASCII letter or digit,
/// `-`, `.`, `_` or `~`.
pub open spec fn unreserved(b: u8) -> bool {
    (0x30 <= b <= 0x39) || (0x41 <= b <= 0x5a) || (0x61 <= b <= 0x7a) || b == 0x2d || b == 0x2e
        || b == 0x5f || b == 0x7e
}

/// The upper-case hexadecimal digit of `d`.
pub open spec fn hex_upper(d: int) -> char {
    if d < 10 {
        text::digit_char(d)
    } else if d == 10 {
        'A'
    } else if d == 11 {
        'B'
    } else if d == 12 {
        'C'
    } else if d == 13 {
        'D'
    } else if d == 14 {
        'E'
    } else {
        'F'
    }
}

/// The percent-encoding of one byte.
pub open spec fn percent_encoded_byte(b: u8) -> Seq<char> {
    if unreserved(b) {
        seq![b as char]
    } else {
        seq!['%', hex_upper(b as int / 16), hex_upper(b as int % 16)]
    }
}

/// The percent-encoding of `bytes`: every byte that is not unreserved
/// becomes `%` and its two upper-case hexadecimal digits.
pub open spec fn percent_encoded(bytes: Seq<u8>) -> Seq<char>
    decreases bytes.len(),
{
    if bytes.len() == 0 {
        Seq::empty()
    } else {
        percent_encoded(bytes.drop_last()) + percent_encoded_byte(bytes.last())
    }
}

/// Calls `urlencoding::encode`, which percent-encodes every byte of the
/// UTF-8 form of `text` except ASCII letters, digits, `-`, `_`, `.` and `~`.
#[verifier::external_body]
pub(crate) fn percent_encode(text: &str) -> (r: String)
    ensures
        r@ == percent_encoded(text.spec_bytes()),
{
    urlencoding::encode(text).into_owned()
}

/// The address of the bag for the device `guid`.
pub fn bag_url(guid: &str) -> (url: String)
    ensures
        url@ == "https://init.itunes.apple.com/bag.xml?guid="@ + percent_encoded(guid.spec_bytes()),
{
    let mut url = String::from_str("https://init.itunes.apple.com/bag.xml?guid=");
    let encoded = percent_encode(guid);
    url.append(encoded.as_str());
    url
}

/// Where the property list of `body` begins and ends: at the first `<plist`,
/// and after the first `</plist>`, which does not end before the other
/// begins.
pub open spec fn plist_span(body: Seq<char>, start: int, end: int) -> bool {
    text::first_at(body, "<plist"@, start) && text::first_at(body, "</plist>"@, end - 8) && start
        <= end
}

/// The property list in the body of a bag response: from the first `<plist`
/// to the end of the first `</plist>`. `None` where either is missing or the
/// closing tag ends before the opening tag begins.
pub fn extract_plist(body: &str) -> (r: Option<&str>)
    ensures
        match r {
            Some(found) => exists|start: int, end: int| #[trigger]
                plist_span(body@, start, end) && found@ == body@.subrange(start, end),
            None => forall|start: int, end: int| !plist_span(body@, start, end),
        },
{
    let v = text::chars_of(body);
    let open = text::chars_of("<plist");
    let close = text::chars_of("</plist>");
    proof {
        reveal_strlit("</plist>");
    }
    let start = match text::find(&v, &open) {
        Some(start) => start,
        None => {
            assert forall|start: int, end: int| !plist_span(body@, start, end) by {
                if plist_span(body@, start, end) {
                    assert(text::occurs_at(body@, "<plist"@, start));
                }
            }
            return None;
        },
    };
    let end = match text::find(&v, &close) {
        Some(at) => {
            assert(close@.len() == 8);
            assert(text::occurs_at(v@, close@, at as int));
            assert(at + 8 <= v.len());
            at + 8
        },
        None => {
            assert forall|start: int, end: int| !plist_span(body@, start, end) by {
                if plist_span(body@, start, end) {
                    assert(text::occurs_at(body@, "</plist>"@, end - 8));
                }
            }
            return None;
        },
    };
    if start > end {
        assert forall|s: int, e: int| !plist_span(body@, s, e) by {
            if plist_span(body@, s, e) {
                lemma_first_at_unique(body@, "<plist"@, s, start as int);
                lemma_first_at_unique(body@, "</plist>"@, e - 8, end - 8);
            }
        }
        return None;
    }
    assert(plist_span(body@, start as int, end as int));
    Some(body.substring_char(start, end))
}

/// There is one first position at most.
pub proof fn lemma_first_at_unique(s: Seq<char>, p: Seq<char>, i: int, j: int)
    requires
        text::first_at(s, p, i),
        text::first_at(s, p, j),
    ensures
        i == j,
{
    if i < j {
        assert(!text::occurs_at(s, p, i));
    }
    if j < i {
        assert(!text::occurs_at(s, p, j));
    }
}

} // verus!
