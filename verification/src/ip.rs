//! Recognition of literal IP addresses in host names: dotted-decimal IPv4
//! and colon-separated IPv6 text, read the way the standard library's
//! address parsers read them.

use crate::text;
use vstd::prelude::*;

verus! {

/// `c` is a digit: hexadecimal where `hex` is set, decimal where it is not.
pub open spec fn radix_digit(c: char, hex: bool) -> bool {
    if hex {
        text::is_hex_digit(c)
    } else {
        text::is_digit(c)
    }
}

/// How many digits stand in a row in `s` from position `pos` on.
pub open spec fn digit_run(s: Seq<char>, pos: int, hex: bool) -> int
    decreases s.len() - pos,
{
    if 0 <= pos < s.len() && radix_digit(s[pos], hex) {
        1 + digit_run(s, pos + 1, hex)
    } else {
        0
    }
}

/// The number that the `n` decimal digits from position `pos` on stand for.
pub open spec fn decimal_value(s: Seq<char>, pos: int, n: int) -> int
    decreases n,
{
    if n <= 0 {
        0
    } else {
        decimal_value(s, pos, n - 1) * 10 + (s[pos + n - 1] as int - '0' as int)
    }
}

/// Where the octet that begins at `pos` ends: one to three decimal digits,
/// no leading zero before another digit, at most 255.
pub open spec fn octet_end(s: Seq<char>, pos: int) -> Option<int> {
    let n = digit_run(s, pos, false);
    if n < 1 || n > 3 {
        None
    } else if n > 1 && s[pos] == '0' {
        None
    } else if decimal_value(s, pos, n) > 255 {
        None
    } else {
        Some(pos + n)
    }
}

/// Where the octet that follows a dot at `pos` ends.
pub open spec fn dotted_octet_end(s: Seq<char>, pos: int) -> Option<int> {
    if 0 <= pos < s.len() && s[pos] == '.' {
        octet_end(s, pos + 1)
    } else {
        None
    }
}

/// Where the IPv4 address that begins at `pos` ends: four octets with dots
/// between them.
pub open spec fn ipv4_end(s: Seq<char>, pos: int) -> Option<int> {
    match octet_end(s, pos) {
        None => None,
        Some(a) => match dotted_octet_end(s, a) {
            None => None,
            Some(b) => match dotted_octet_end(s, b) {
                None => None,
                Some(c) => dotted_octet_end(s, c),
            },
        },
    }
}

/// `s` is an IPv4 address in dotted-decimal form, and nothing else.
pub open spec fn is_ipv4(s: Seq<char>) -> bool {
    ipv4_end(s, 0) == Some(s.len() as int)
}

/// Where the group of one to four hexadecimal digits that begins at `pos`
/// ends.
pub open spec fn hex_group_end(s: Seq<char>, pos: int) -> Option<int> {
    let n = digit_run(s, pos, true);
    if 1 <= n <= 4 {
        Some(pos + n)
    } else {
        None
    }
}

/// The position after the separator before group `i`: the first group has
/// none, every other follows a colon.
pub open spec fn after_separator(s: Seq<char>, pos: int, i: int) -> Option<int> {
    if i == 0 {
        Some(pos)
    } else if 0 <= pos < s.len() && s[pos] == ':' {
        Some(pos + 1)
    } else {
        None
    }
}

/// What is read at `pos` as group `i` of at most `limit`.
pub enum Group {
    /// An IPv4 address that ends at the position; it fills two groups.
    Embedded(int),
    /// A hexadecimal group that ends at the position.
    Hex(int),
    /// Nothing that can stand here.
    Nothing,
}

/// What stands at `pos` as group `i` of at most `limit`: an embedded IPv4
/// address where two groups are left for it, else a hexadecimal group.
pub open spec fn group_at(s: Seq<char>, pos: int, i: int, limit: int) -> Group {
    match after_separator(s, pos, i) {
        None => Group::Nothing,
        Some(p) => if i < limit - 1 && ipv4_end(s, p) is Some {
            Group::Embedded(ipv4_end(s, p)->0)
        } else {
            match hex_group_end(s, p) {
                Some(e) => Group::Hex(e),
                None => Group::Nothing,
            }
        },
    }
}

/// Reading groups from `pos` on, `i` of at most `limit` being read already:
/// how many are read in the end, whether the last is an embedded IPv4
/// address, and where reading stops.
pub open spec fn groups(s: Seq<char>, pos: int, i: int, limit: int) -> (int, bool, int)
    decreases limit - i,
{
    if i >= limit {
        (i, false, pos)
    } else {
        match group_at(s, pos, i, limit) {
            Group::Embedded(e) => (i + 2, true, e),
            Group::Hex(e) => groups(s, e, i + 1, limit),
            Group::Nothing => (i, false, pos),
        }
    }
}

/// `s` is an IPv6 address, and nothing else: eight groups, the last two of
/// which may be an embedded IPv4 address, or fewer with one `::` in the
/// place of the groups left out.
pub open spec fn is_ipv6(s: Seq<char>) -> bool {
    let head = groups(s, 0, 0, 8);
    if head.0 == 8 {
        head.2 == s.len()
    } else if head.1 {
        false
    } else if !(head.2 + 1 < s.len() && s[head.2] == ':' && s[head.2 + 1] == ':') {
        false
    } else {
        groups(s, head.2 + 2, 0, 7 - head.0).2 == s.len()
    }
}

/// `s` is a literal IPv4 or IPv6 address.
pub open spec fn is_ip_literal(s: Seq<char>) -> bool {
    is_ipv4(s) || is_ipv6(s)
}

/// Whether `c` is a digit, hexadecimal where `hex` is set.
fn is_radix_digit(c: char, hex: bool) -> (b: bool)
    ensures
        b == radix_digit(c, hex),
{
    if hex {
        text::char_is_hex_digit(c)
    } else {
        text::char_is_digit(c)
    }
}

/// Counts the digits that stand in a row from `pos` on.
fn count_digits(v: &Vec<char>, pos: usize, hex: bool) -> (n: usize)
    requires
        pos <= v.len(),
    ensures
        n == digit_run(v@, pos as int, hex),
        pos + n <= v.len(),
{
    let mut n: usize = 0;
    while pos + n < v.len() && is_radix_digit(v[pos + n], hex)
        invariant
            pos + n <= v.len(),
            digit_run(v@, pos as int, hex) == n + digit_run(v@, pos + n, hex),
        decreases v.len() - pos - n,
    {
        n += 1;
    }
    n
}

/// Reads an octet at `pos`.
fn read_octet(v: &Vec<char>, pos: usize) -> (r: Option<usize>)
    requires
        pos <= v.len(),
    ensures
        match r {
            Some(e) => octet_end(v@, pos as int) == Some(e as int) && pos < e <= v.len(),
            None => octet_end(v@, pos as int) is None,
        },
{
    let n = count_digits(v, pos, false);
    if n < 1 || n > 3 {
        return None;
    }
    if n > 1 && v[pos] == '0' {
        return None;
    }
    let mut value: u32 = 0;
    let mut k: usize = 0;
    proof {
        lemma_run_digits(v@, pos as int, false);
    }
    while k < n
        invariant
            k <= n <= 3,
            pos + n <= v.len(),
            n == digit_run(v@, pos as int, false),
            value == decimal_value(v@, pos as int, k as int),
            value <= 999,
            forall|j: int| 0 <= j < n ==> text::is_digit(#[trigger] v@[pos + j]),
        decreases n - k,
    {
        let c = v[pos + k];
        assert(text::is_digit(c));
        proof {
            lemma_decimal_bound(v@, pos as int, k as int);
            lemma_decimal_bound(v@, pos as int, k + 1);
        }
        value = value * 10 + (c as u32 - '0' as u32);
        k += 1;
    }
    if value > 255 {
        return None;
    }
    Some(pos + n)
}

/// The first digits of a run are digits.
proof fn lemma_run_digits(s: Seq<char>, pos: int, hex: bool)
    requires
        0 <= pos,
    ensures
        forall|j: int| 0 <= j < digit_run(s, pos, hex) ==> radix_digit(#[trigger] s[pos + j], hex),
        digit_run(s, pos, hex) >= 0,
        pos + digit_run(s, pos, hex) <= s.len() || digit_run(s, pos, hex) == 0,
    decreases s.len() - pos,
{
    if pos < s.len() && radix_digit(s[pos], hex) {
        lemma_run_digits(s, pos + 1, hex);
        assert forall|j: int| 0 <= j < digit_run(s, pos, hex) implies radix_digit(
            #[trigger] s[pos + j],
            hex,
        ) by {
            if j > 0 {
                assert(s[pos + 1 + (j - 1)] == s[pos + j]);
            }
        }
    }
}

/// Up to three decimal digits stand for less than a thousand.
proof fn lemma_decimal_bound(s: Seq<char>, pos: int, n: int)
    requires
        0 <= n <= 3,
        forall|j: int| 0 <= j < n ==> text::is_digit(#[trigger] s[pos + j]),
    ensures
        0 <= decimal_value(s, pos, n),
        n == 0 ==> decimal_value(s, pos, n) == 0,
        n == 1 ==> decimal_value(s, pos, n) <= 9,
        n == 2 ==> decimal_value(s, pos, n) <= 99,
        n == 3 ==> decimal_value(s, pos, n) <= 999,
    decreases n,
{
    if n > 0 {
        lemma_decimal_bound(s, pos, n - 1);
        assert(text::is_digit(s[pos + (n - 1)]));
    }
}

/// Reads a dot and an octet at `pos`.
fn read_dotted_octet(v: &Vec<char>, pos: usize) -> (r: Option<usize>)
    requires
        pos <= v.len(),
    ensures
        match r {
            Some(e) => dotted_octet_end(v@, pos as int) == Some(e as int) && pos < e <= v.len(),
            None => dotted_octet_end(v@, pos as int) is None,
        },
{
    if pos < v.len() && v[pos] == '.' {
        read_octet(v, pos + 1)
    } else {
        None
    }
}

/// Reads an IPv4 address at `pos`.
fn read_ipv4(v: &Vec<char>, pos: usize) -> (r: Option<usize>)
    requires
        pos <= v.len(),
    ensures
        match r {
            Some(e) => ipv4_end(v@, pos as int) == Some(e as int) && pos < e <= v.len(),
            None => ipv4_end(v@, pos as int) is None,
        },
{
    let a = match read_octet(v, pos) {
        Some(a) => a,
        None => {
            return None;
        },
    };
    let b = match read_dotted_octet(v, a) {
        Some(b) => b,
        None => {
            return None;
        },
    };
    let c = match read_dotted_octet(v, b) {
        Some(c) => c,
        None => {
            return None;
        },
    };
    read_dotted_octet(v, c)
}

/// Reads groups at `pos`, at most `limit` of them.
fn read_groups(v: &Vec<char>, pos: usize, limit: usize) -> (r: (usize, bool, usize))
    requires
        pos <= v.len(),
        limit <= 8,
    ensures
        groups(v@, pos as int, 0, limit as int) == (r.0 as int, r.1, r.2 as int),
        r.0 <= limit,
        pos <= r.2 <= v.len(),
{
    let mut at: usize = pos;
    let mut i: usize = 0;
    while i < limit
        invariant
            i <= limit <= 8,
            pos <= at <= v.len(),
            groups(v@, pos as int, 0, limit as int) == groups(v@, at as int, i as int, limit as int),
        decreases limit - i,
    {
        let start = if i == 0 {
            at
        } else if at < v.len() && v[at] == ':' {
            at + 1
        } else {
            return (i, false, at);
        };
        if i + 1 < limit {
            if let Some(e) = read_ipv4(v, start) {
                return (i + 2, true, e);
            }
        }
        let n = count_digits(v, start, true);
        if n < 1 || n > 4 {
            return (i, false, at);
        }
        at = start + n;
        i += 1;
    }
    (i, false, at)
}

/// Whether `host` is an IPv4 address in dotted-decimal form.
pub fn is_ipv4_literal(host: &str) -> (b: bool)
    ensures
        b == is_ipv4(host@),
{
    let v = text::chars_of(host);
    match read_ipv4(&v, 0) {
        Some(e) => e == v.len(),
        None => false,
    }
}

/// Whether `host` is an IPv6 address.
pub fn is_ipv6_literal(host: &str) -> (b: bool)
    ensures
        b == is_ipv6(host@),
{
    let v = text::chars_of(host);
    let (count, embedded, at) = read_groups(&v, 0, 8);
    if count == 8 {
        return at == v.len();
    }
    if embedded {
        return false;
    }
    if !(at < v.len() && v[at] == ':' && at + 1 < v.len() && v[at + 1] == ':') {
        return false;
    }
    let (_, _, end) = read_groups(&v, at + 2, 7 - count);
    end == v.len()
}

/// Whether `host` is a literal IPv4 or IPv6 address.
pub fn is_ip_literal_host(host: &str) -> (b: bool)
    ensures
        b == is_ip_literal(host@),
{
    is_ipv4_literal(host) || is_ipv6_literal(host)
}

} // verus!
