//! Property lists: a value tree read from XML or binary data, typed
//! accessors over a dictionary at its root, and re-encoding to binary form.

use vstd::prelude::*;
use vstd::string::StringExecFns;
use vstd::string::StringSliceAdditionalSpecFns;

verus! {

/// A property-list value, as far as this crate reads it: dictionaries,
/// arrays and strings; every other kind of value is `Other`.
#[derive(Debug)]
pub enum PlistValue {
    Array(Vec<PlistValue>),
    /// The entries in document order; a key stands once.
    Dictionary(Vec<(String, PlistValue)>),
    String(String),
    /// A boolean, number, date, data or UID value.
    Other,
}

/// `plist::Value`, a property list as the `plist` crate holds it; nothing
/// of its inside is known here.
#[verifier::external_type_specification]
#[verifier::external_body]
pub struct ExPlistValue(plist::Value);

/// `plist::Error`, why a property list could not be read or written.
#[verifier::external_type_specification]
#[verifier::external_body]
pub struct ExPlistError(plist::Error);

/// What `plist::from_bytes::<plist::Value>` returns for `data`, `None` when
/// it fails.
pub uninterp spec fn plist_parsed(data: Seq<u8>) -> Option<plist::Value>;

/// The dictionaries, arrays and strings that a `plist::Value` holds.
pub uninterp spec fn plist_tree_of(v: plist::Value) -> PlistValue;

/// What `plist::to_writer_binary` writes for a value, `None` when it fails.
pub uninterp spec fn plist_binary_of(v: plist::Value) -> Option<Seq<u8>>;

/// Calls `plist::from_bytes` for a `plist::Value`. It reads XML and binary
/// property lists alike and depends on `data` alone.
#[verifier::external_body]
fn plist_parse(data: &[u8]) -> (r: Result<plist::Value, plist::Error>)
    ensures
        r matches Ok(v) ==> plist_parsed(data@) == Some(v),
        r is Err ==> plist_parsed(data@) is None,
{
    plist::from_bytes::<plist::Value>(data)
}

/// Copies a `plist::Value` into a [`PlistValue`]: arrays with their items in
/// order, dictionaries with their entries in order, strings; anything else
/// becomes `Other`.
#[verifier::external_body]
fn plist_tree(v: &plist::Value) -> (t: PlistValue)
    ensures
        t == plist_tree_of(*v),
{
    match v {
        plist::Value::Array(a) => PlistValue::Array(a.iter().map(plist_tree).collect()),
        plist::Value::Dictionary(d) => PlistValue::Dictionary(
            d.iter().map(|(k, x)| (k.clone(), plist_tree(x))).collect(),
        ),
        plist::Value::String(s) => PlistValue::String(s.clone()),
        _ => PlistValue::Other,
    }
}

/// Calls `plist::to_writer_binary` on an empty buffer and returns the buffer.
#[verifier::external_body]
fn plist_write_binary(v: &plist::Value) -> (r: Result<Vec<u8>, plist::Error>)
    ensures
        r matches Ok(bytes) ==> plist_binary_of(*v) == Some(bytes@),
        r is Err ==> plist_binary_of(*v) is None,
{
    let mut buf = Vec::new();
    plist::to_writer_binary(&mut buf, v).map(|_| buf)
}

/// The tree that `data` holds as a property list, `None` when it holds none.
pub open spec fn plist_decoded(data: Seq<u8>) -> Option<PlistValue> {
    match plist_parsed(data) {
        Some(v) => Some(plist_tree_of(v)),
        None => None,
    }
}

/// The binary encoding of the property list that `data` holds, `None` when
/// `data` holds none or it cannot be encoded.
pub open spec fn plist_reencoded(data: Seq<u8>) -> Option<Seq<u8>> {
    match plist_parsed(data) {
        Some(v) => plist_binary_of(v),
        None => None,
    }
}

/// Reads a property list from XML or binary data. Malformed input gives
/// `None`.
pub fn parse_plist(data: &[u8]) -> (r: Option<PlistValue>)
    ensures
        r == plist_decoded(data@),
{
    match plist_parse(data) {
        Ok(v) => Some(plist_tree(&v)),
        Err(_) => None,
    }
}

/// The value of the first entry of `entries` whose key is `key`.
pub open spec fn lookup(entries: Seq<(String, PlistValue)>, key: Seq<char>) -> Option<PlistValue>
    decreases entries.len(),
{
    if entries.len() == 0 {
        None
    } else if entries[0].0@ == key {
        Some(entries[0].1)
    } else {
        lookup(entries.drop_first(), key)
    }
}

/// The strings among `items`, in order.
pub open spec fn strings_in(items: Seq<PlistValue>) -> Seq<Seq<char>>
    decreases items.len(),
{
    if items.len() == 0 {
        Seq::empty()
    } else {
        let rest = strings_in(items.drop_last());
        match items.last() {
            PlistValue::String(s) => rest.push(s@),
            _ => rest,
        }
    }
}

impl PlistValue {
    /// The value under `key`, where `self` is a dictionary that has the key.
    pub open spec fn entry(self, key: Seq<char>) -> Option<PlistValue> {
        match self {
            PlistValue::Dictionary(entries) => lookup(entries@, key),
            _ => None,
        }
    }

    /// The string under `key`, where `self` is a dictionary and holds a
    /// string there.
    pub open spec fn string_at(self, key: Seq<char>) -> Option<Seq<char>> {
        match self.entry(key) {
            Some(PlistValue::String(s)) => Some(s@),
            _ => None,
        }
    }

    /// The strings of the array under `key`, where `self` is a dictionary and
    /// holds an array there; items that are no strings are passed over.
    pub open spec fn strings_at(self, key: Seq<char>) -> Option<Seq<Seq<char>>> {
        match self.entry(key) {
            Some(PlistValue::Array(items)) => Some(strings_in(items@)),
            _ => None,
        }
    }

    /// Looks `key` up in a dictionary.
    pub fn get(&self, key: &str) -> (r: Option<&PlistValue>)
        ensures
            match r {
                Some(v) => self.entry(key@) == Some(*v),
                None => self.entry(key@) is None,
            },
    {
        match self {
            PlistValue::Dictionary(entries) => {
                let mut i: usize = 0;
                assert(entries@.skip(0) =~= entries@);
                while i < entries.len()
                    invariant
                        i <= entries.len(),
                        self == PlistValue::Dictionary(*entries),
                        lookup(entries@, key@) == lookup(entries@.skip(i as int), key@),
                    decreases entries.len() - i,
                {
                    assert(entries@.skip(i as int)[0] == entries@[i as int]);
                    assert(entries@.skip(i as int).drop_first() =~= entries@.skip(i + 1));
                    if crate::text::str_eq(entries[i].0.as_str(), key) {
                        return Some(&entries[i].1);
                    }
                    i += 1;
                }
                None
            },
            _ => None,
        }
    }
}

/// The views of an optional string.
pub open spec fn opt_str_view(s: Option<String>) -> Option<Seq<char>> {
    match s {
        Some(s) => Some(s@),
        None => None,
    }
}

/// The views of an optional list of strings.
pub open spec fn opt_strs_view(v: Option<Vec<String>>) -> Option<Seq<Seq<char>>> {
    match v {
        Some(v) => Some(Seq::new(v@.len(), |i: int| v@[i]@)),
        None => None,
    }
}

/// The string under `key` of a dictionary. `None` where `dict` is no
/// dictionary, has no such key, or holds something else than a string there.
pub fn get_string(dict: &PlistValue, key: &str) -> (r: Option<String>)
    ensures
        opt_str_view(r) == dict.string_at(key@),
{
    match dict.get(key) {
        Some(PlistValue::String(s)) => Some(s.clone()),
        _ => None,
    }
}

/// The strings of the array under `key` of a dictionary, in order; items of
/// the array that are no strings are left out. `None` where `dict` is no
/// dictionary, has no such key, or holds something else than an array there.
pub fn get_string_array(dict: &PlistValue, key: &str) -> (r: Option<Vec<String>>)
    ensures
        opt_strs_view(r) == dict.strings_at(key@),
{
    match dict.get(key) {
        Some(PlistValue::Array(items)) => {
            let mut out: Vec<String> = Vec::new();
            let mut i: usize = 0;
            while i < items.len()
                invariant
                    i <= items.len(),
                    Seq::new(out@.len(), |k: int| out@[k]@) == strings_in(items@.take(i as int)),
                decreases items.len() - i,
            {
                assert(items@.take(i + 1).drop_last() =~= items@.take(i as int));
                let ghost before = Seq::new(out@.len(), |k: int| out@[k]@);
                match &items[i] {
                    PlistValue::String(s) => {
                        out.push(s.clone());
                        assert(Seq::new(out@.len(), |k: int| out@[k]@) =~= before.push(s@));
                    },
                    _ => {},
                }
                i += 1;
            }
            assert(items@.take(items.len() as int) =~= items@);
            Some(out)
        },
        _ => None,
    }
}

/// Reads an XML property list and encodes it in binary form.
pub fn xml_to_binary_plist(xml: &str) -> (r: Result<Vec<u8>, String>)
    ensures
        match r {
            Ok(bytes) => plist_reencoded(xml.spec_bytes()) == Some(bytes@),
            Err(message) => plist_reencoded(xml.spec_bytes()) is None && if plist_parsed(
                xml.spec_bytes(),
            ) is None {
                crate::text::has_prefix(message@, "Failed to parse XML plist: "@)
            } else {
                crate::text::has_prefix(message@, "Failed to write binary plist: "@)
            },
        },
{
    match plist_parse(xml.as_bytes()) {
        Err(e) => {
            let mut message = String::from_str("Failed to parse XML plist: ");
            let detail = e.to_string();
            message.append(detail.as_str());
            assert(message@.subrange(0, "Failed to parse XML plist: "@.len() as int)
                =~= "Failed to parse XML plist: "@);
            Err(message)
        },
        Ok(value) => match plist_write_binary(&value) {
            Err(e) => {
                let mut message = String::from_str("Failed to write binary plist: ");
                let detail = e.to_string();
                message.append(detail.as_str());
                assert(message@.subrange(0, "Failed to write binary plist: "@.len() as int)
                    =~= "Failed to write binary plist: "@);
                Err(message)
            },
            Ok(bytes) => Ok(bytes),
        },
    }
}

} // verus!
