//! Validation and repair of untrusted strings: path segments, host names,
//! file names and paths. Every function is total and has no effect.

use crate::ip;
use crate::text;
use crate::types::opt_view;
use vstd::prelude::*;
use vstd::string::StringExecFns;

verus! {

/// The largest package that is fetched, in bytes (4 GB).
pub const MAX_DOWNLOAD_SIZE: u64 = 4294967296;

/// How long a fetch may take, in seconds.
pub const DOWNLOAD_TIMEOUT_SECS: u64 = 600;

/// `c` may stand in a path segment: an ASCII letter or digit, a dot, an
/// underscore or a dash.
pub open spec fn safe_segment_char(c: char) -> bool {
    text::is_alnum(c) || c == '.' || c == '_' || c == '-'
}

/// Whether `c` may stand in a path segment.
#[verifier::when_used_as_spec(safe_segment_char)]
pub fn is_safe_segment_char(c: char) -> (b: bool)
    ensures
        b == safe_segment_char(c),
{
    text::char_is_alnum(c) || c == '.' || c == '_' || c == '-'
}

/// Every character of `s` may stand in a path segment.
pub open spec fn all_safe(s: Seq<char>) -> bool {
    forall|i: int| 0 <= i < s.len() ==> safe_segment_char(#[trigger] s[i])
}

/// `s` names the current or the parent directory.
pub open spec fn is_dot_segment(s: Seq<char>) -> bool {
    s == seq!['.'] || s == seq!['.', '.']
}

/// `s` is a path segment: not empty, of safe characters only, and neither
/// `.` nor `..`.
pub open spec fn valid_segment(s: Seq<char>) -> bool {
    s.len() > 0 && all_safe(s) && !is_dot_segment(s)
}

/// Whether every character of `v` may stand in a path segment.
fn check_all_safe(v: &Vec<char>) -> (b: bool)
    ensures
        b == all_safe(v@),
{
    let mut i: usize = 0;
    while i < v.len()
        invariant
            i <= v.len(),
            forall|k: int| 0 <= k < i ==> safe_segment_char(#[trigger] v@[k]),
        decreases v.len() - i,
    {
        if !is_safe_segment_char(v[i]) {
            return false;
        }
        i += 1;
    }
    true
}

/// Whether `v` is `.` or `..`.
fn check_dot_segment(v: &Vec<char>) -> (b: bool)
    ensures
        b == is_dot_segment(v@),
{
    if v.len() == 1 {
        assert(v@ =~= seq![v@[0]]);
        v[0] == '.'
    } else if v.len() == 2 {
        assert(v@ =~= seq![v@[0], v@[1]]);
        v[0] == '.' && v[1] == '.'
    } else {
        false
    }
}

/// The message for a value named `label` that is empty or holds a character
/// that may not stand in a path segment.
pub open spec fn charset_message(label: Seq<char>) -> Seq<char> {
    "Invalid "@ + label
        + ": must contain only alphanumeric characters, dots, dashes, or underscores"@
}

/// The message for a value named `label` that is `.` or `..`.
pub open spec fn dot_message(label: Seq<char>) -> Seq<char> {
    "Invalid "@ + label
}

/// Checks that `value` can serve as one segment of a storage path. `label`
/// names the value in the message.
pub fn validate_path_segment(value: &str, label: &str) -> (r: Result<(), String>)
    ensures
        r is Ok <==> valid_segment(value@),
        r matches Err(message) ==> message@ == (if value@.len() == 0 || !all_safe(value@) {
            charset_message(label@)
        } else {
            dot_message(label@)
        }),
{
    let v = text::chars_of(value);
    if v.len() == 0 || !check_all_safe(&v) {
        let mut message = String::from_str("Invalid ");
        message.append(label);
        message.append(": must contain only alphanumeric characters, dots, dashes, or underscores");
        return Err(message);
    }
    if check_dot_segment(&v) {
        let mut message = String::from_str("Invalid ");
        message.append(label);
        return Err(message);
    }
    Ok(())
}

/// `s` with an underscore in place of every character that may not stand in
/// a path segment.
pub open spec fn cleaned(s: Seq<char>) -> Seq<char> {
    Seq::new(
        s.len(),
        |i: int|
            if safe_segment_char(s[i]) {
                s[i]
            } else {
                '_'
            },
    )
}

/// The path segment that is made of `value`: `value` cleaned, unless that
/// is empty, `.` or `..`.
pub open spec fn sanitized(value: Seq<char>) -> Option<Seq<char>> {
    if cleaned(value).len() > 0 && !is_dot_segment(cleaned(value)) {
        Some(cleaned(value))
    } else {
        None
    }
}

/// Makes a path segment of `value`: every character that may not stand in
/// one becomes an underscore. Fails where the outcome is empty, `.` or `..`.
pub fn sanitize_path_segment(value: &str) -> (r: Result<String, String>)
    ensures
        match r {
            Ok(segment) => sanitized(value@) == Some(segment@) && valid_segment(segment@),
            Err(message) => sanitized(value@) is None && message@ == "Invalid path segment"@,
        },
{
    let v = text::chars_of(value);
    let mut out: Vec<char> = Vec::new();
    let mut i: usize = 0;
    while i < v.len()
        invariant
            i <= v.len(),
            out@ == cleaned(v@.take(i as int)),
        decreases v.len() - i,
    {
        let c = v[i];
        if is_safe_segment_char(c) {
            out.push(c);
        } else {
            out.push('_');
        }
        assert(out@ =~= cleaned(v@.take(i + 1)));
        i += 1;
    }
    assert(v@.take(v.len() as int) =~= v@);
    if out.len() == 0 || check_dot_segment(&out) {
        return Err(String::from_str("Invalid path segment"));
    }
    Ok(text::string_of(&out))
}

/// A cleaned string holds safe characters only, so no `/`, and cleaning it
/// again changes nothing.
pub proof fn lemma_cleaned_is_fixed(s: Seq<char>)
    ensures
        all_safe(cleaned(s)),
        forall|i: int| 0 <= i < cleaned(s).len() ==> #[trigger] cleaned(s)[i] != '/',
        cleaned(cleaned(s)) == cleaned(s),
{
    assert(cleaned(cleaned(s)) =~= cleaned(s));
}

/// Sanitizing twice gives what sanitizing once gives, the outcome is a
/// valid segment and holds no `/`; and a valid segment is left as it is.
pub proof fn lemma_sanitize_idempotent(value: Seq<char>)
    ensures
        sanitized(value) matches Some(once) ==> sanitized(once) == Some(once) && valid_segment(
            once,
        ) && forall|i: int| 0 <= i < once.len() ==> #[trigger] once[i] != '/',
        valid_segment(value) ==> sanitized(value) == Some(value),
{
    lemma_cleaned_is_fixed(value);
    if valid_segment(value) {
        assert(cleaned(value) =~= value);
    }
}

/// `c` may stand in a host name: an ASCII letter or digit, a dot, a dash or
/// a colon.
pub open spec fn host_char(c: char) -> bool {
    text::is_alnum(c) || c == '.' || c == '-' || c == ':'
}

/// The characters of `host` that may stand in a host name, in order.
pub open spec fn host_chars(host: Seq<char>) -> Seq<char> {
    host.filter(|c: char| host_char(c))
}

/// Drops from `host` every character that may not stand in a host name, so
/// that it can be put into a redirect.
pub fn sanitize_host(host: &str) -> (r: String)
    ensures
        r@ == host_chars(host@),
{
    let v = text::chars_of(host);
    let mut out: Vec<char> = Vec::new();
    let ghost keep = |c: char| host_char(c);
    let mut i: usize = 0;
    proof {
        reveal(Seq::filter);
    }
    while i < v.len()
        invariant
            i <= v.len(),
            keep == (|c: char| host_char(c)),
            out@ == v@.take(i as int).filter(keep),
        decreases v.len() - i,
    {
        let c = v[i];
        proof {
            reveal(Seq::filter);
            assert(v@.take(i + 1).drop_last() =~= v@.take(i as int));
        }
        if text::char_is_alnum(c) || c == '.' || c == '-' || c == ':' {
            out.push(c);
        }
        i += 1;
    }
    assert(v@.take(v.len() as int) =~= v@);
    text::string_of(&out)
}

/// `c` may stand in a file name that is put between quotes in a header:
/// printable ASCII or a space, but neither a quote nor a backslash.
pub open spec fn filename_char(c: char) -> bool {
    (text::is_graphic(c) || c == ' ') && c != '"' && c != '\\'
}

/// The first 200 of the characters of `name` that may stand in a file name.
pub open spec fn filename_chars(name: Seq<char>) -> Seq<char> {
    let kept = name.filter(|c: char| filename_char(c));
    if kept.len() <= 200 {
        kept
    } else {
        kept.take(200)
    }
}

/// Makes `name` safe for a quoted file name in a header: quotes, backslashes
/// and everything that is not printable ASCII are dropped, and at most 200
/// characters are kept.
pub fn sanitize_filename(name: &str) -> (r: String)
    ensures
        r@ == filename_chars(name@),
        r@.len() <= 200,
{
    let v = text::chars_of(name);
    let mut out: Vec<char> = Vec::new();
    let ghost keep = |c: char| filename_char(c);
    let mut i: usize = 0;
    proof {
        reveal(Seq::filter);
    }
    while i < v.len() && out.len() < 200
        invariant
            i <= v.len(),
            keep == (|c: char| filename_char(c)),
            out@ == v@.take(i as int).filter(keep),
            out@.len() <= 200,
        decreases v.len() - i,
    {
        let c = v[i];
        proof {
            reveal(Seq::filter);
            assert(v@.take(i + 1).drop_last() =~= v@.take(i as int));
        }
        if (text::char_is_graphic(c) || c == ' ') && c != '"' && c != '\\' {
            out.push(c);
        }
        i += 1;
    }
    proof {
        let done = v@.take(i as int);
        let rest = v@.skip(i as int);
        assert(done + rest =~= v@);
        Seq::filter_distributes_over_add(done, rest, keep);
        if i == v.len() {
            assert(rest =~= Seq::<char>::empty());
            assert(rest.filter(keep) =~= Seq::<char>::empty());
            assert(v@.filter(keep) =~= out@);
        } else {
            assert(out@.len() == 200);
            assert((out@ + rest.filter(keep)).take(200) =~= out@);
        }
    }
    text::string_of(&out)
}

/// `resolved` lies below the directory `base`: it begins with `base`, and
/// what follows begins with a `/`.
pub open spec fn within_base(resolved: Seq<char>, base: Seq<char>) -> bool {
    text::has_prefix(resolved, base) && resolved.len() > base.len() && resolved[base.len() as int]
        == '/'
}

/// Whether the path `resolved` lies below the directory `base`. The base
/// itself does not, nor a sibling whose name begins with the base's name.
pub fn path_within_base(resolved: &str, base: &str) -> (b: bool)
    ensures
        b == within_base(resolved@, base@),
{
    let r = text::chars_of(resolved);
    let b = text::chars_of(base);
    text::starts_with(&r, &b) && r.len() > b.len() && r[b.len()] == '/'
}

/// No path lies below itself.
pub proof fn lemma_base_not_within_itself(base: Seq<char>)
    ensures
        !within_base(base, base),
{
}

/// `s` with every ASCII capital in lower case.
pub open spec fn lowered(s: Seq<char>) -> Seq<char> {
    Seq::new(s.len(), |i: int| text::lower(s[i]))
}

/// `host` is the trusted domain `apple.com` or lies below it, in any case
/// of letters.
pub open spec fn apple_domain(host: Seq<char>) -> bool {
    lowered(host) == "apple.com"@ || text::has_suffix(lowered(host), ".apple.com"@)
}

/// Whether `host` is the trusted domain or lies below it.
pub fn is_apple_domain(host: &str) -> (b: bool)
    ensures
        b == apple_domain(host@),
{
    let v = text::chars_of(host);
    let mut low: Vec<char> = Vec::new();
    let mut i: usize = 0;
    while i < v.len()
        invariant
            i <= v.len(),
            low@ == lowered(v@.take(i as int)),
        decreases v.len() - i,
    {
        low.push(text::char_lower(v[i]));
        assert(low@ =~= lowered(v@.take(i + 1)));
        i += 1;
    }
    assert(v@.take(v.len() as int) =~= v@);
    let apex = text::chars_of("apple.com");
    let below = text::chars_of(".apple.com");
    text::same(&low, &apex) || text::ends_with(&low, &below)
}

/// `host` is an IP address: a literal IPv4 or IPv6 address, or anything in
/// square brackets.
pub open spec fn ip_host(host: Seq<char>) -> bool {
    ip::is_ip_literal(host) || (host.len() > 0 && host[0] == '[')
}

/// Whether `host` is an IP address rather than a name.
pub fn is_ip_address(host: &str) -> (b: bool)
    ensures
        b == ip_host(host@),
{
    if ip::is_ip_literal_host(host) {
        return true;
    }
    let v = text::chars_of(host);
    v.len() > 0 && v[0] == '['
}

/// What of a URL the validation reads.
#[derive(Debug, Clone)]
pub struct UrlParts {
    /// The scheme, in lower case, without the colon.
    pub scheme: String,
    /// The host as it stands in the normalized URL, if the URL has one.
    pub host: Option<String>,
}

/// The view of optional URL parts: scheme and host.
pub open spec fn parts_view(parts: Option<UrlParts>) -> Option<(Seq<char>, Option<Seq<char>>)> {
    match parts {
        Some(p) => Some((p.scheme@, opt_view(p.host))),
        None => None,
    }
}

/// The scheme and the host of the absolute URL that `url::Url::parse` reads
/// from `text`, as `Url::scheme` and `Url::host_str` give them; `None` where
/// it reads none.
pub uninterp spec fn url_parts_of(text: Seq<char>) -> Option<(Seq<char>, Option<Seq<char>>)>;

/// Calls `url::Url::parse`, then `Url::scheme` and `Url::host_str` on the
/// outcome.
#[verifier::external_body]
fn parse_url(text: &str) -> (r: Option<UrlParts>)
    ensures
        parts_view(r) == url_parts_of(text@),
{
    url::Url::parse(text).ok().map(
        |u| UrlParts { scheme: u.scheme().to_string(), host: u.host_str().map(|h| h.to_string()) },
    )
}

/// Why a download URL with the given parts is refused, if it is: the checks
/// are made in this order, and the first that fails gives the message.
pub open spec fn download_url_fault(parts: Option<(Seq<char>, Option<Seq<char>>)>) -> Option<
    Seq<char>,
> {
    match parts {
        None => Some("Invalid download URL"@),
        Some((scheme, host)) => if scheme != "https"@ {
            Some("Download URL must use HTTPS"@)
        } else {
            match host {
                None => Some("Invalid download URL"@),
                Some(h) => if ip_host(h) {
                    Some("Download URL must not use IP addresses"@)
                } else if !apple_domain(h) {
                    Some("Download URL must be from an Apple domain (*.apple.com)"@)
                } else {
                    None
                },
            }
        },
    }
}

/// The parts are those of a URL that may be fetched: the scheme is `https`,
/// the host is no IP address, and it is the trusted domain or lies below it.
pub open spec fn fetchable(parts: Option<(Seq<char>, Option<Seq<char>>)>) -> bool {
    parts matches Some((scheme, Some(host))) && scheme == "https"@ && !ip_host(host)
        && apple_domain(host)
}

/// The fault of a result, if it is one.
pub open spec fn fault_view(r: Result<(), String>) -> Option<Seq<char>> {
    match r {
        Ok(_) => None,
        Err(message) => Some(message@),
    }
}

/// Decides whether a URL with the given parts may be fetched. `None` stands
/// for text that is no absolute URL.
pub fn check_download_url(parts: &Option<UrlParts>) -> (r: Result<(), String>)
    ensures
        fault_view(r) == download_url_fault(parts_view(*parts)),
        r is Ok <==> fetchable(parts_view(*parts)),
{
    let parts = match parts {
        None => {
            return Err(String::from_str("Invalid download URL"));
        },
        Some(parts) => parts,
    };
    if !text::str_eq(parts.scheme.as_str(), "https") {
        return Err(String::from_str("Download URL must use HTTPS"));
    }
    let host = match &parts.host {
        None => {
            return Err(String::from_str("Invalid download URL"));
        },
        Some(host) => host,
    };
    if is_ip_address(host.as_str()) {
        return Err(String::from_str("Download URL must not use IP addresses"));
    }
    if !is_apple_domain(host.as_str()) {
        return Err(String::from_str("Download URL must be from an Apple domain (*.apple.com)"));
    }
    Ok(())
}

/// Checks that `url` may be fetched: an absolute URL with the scheme
/// `https` whose host is no IP address and is the trusted domain or lies
/// below it.
pub fn validate_download_url(url: &str) -> (r: Result<(), String>)
    ensures
        fault_view(r) == download_url_fault(url_parts_of(url@)),
        r is Ok <==> fetchable(url_parts_of(url@)),
{
    let parts = parse_url(url);
    check_download_url(&parts)
}

} // verus!
