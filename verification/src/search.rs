//! The catalog: what a search or a lookup of the store answers, as JSON, and
//! the catalog items that are read from it.

use crate::text;
use crate::types::{opt_view, strs_view, Software, SoftwareView};
use vstd::prelude::*;

verus! {

/// A JSON number, as far as this crate reads it.
#[derive(Debug, Clone, Copy, PartialEq, Eq)]
pub struct JsonNumber {
    /// The number as a 64-bit signed integer, where it is one.
    pub as_i64: Option<i64>,
    /// The bits of the number as an IEEE 754 double, where it has one.
    pub as_f64_bits: Option<u64>,
}

/// A JSON value.
#[derive(Debug)]
pub enum JsonValue {
    Null,
    Bool(bool),
    Number(JsonNumber),
    String(String),
    Array(Vec<JsonValue>),
    /// The members of an object; a name stands once.
    Object(Vec<(String, JsonValue)>),
}

/// The value of the first member of `members` whose name is `key`.
pub open spec fn member_of(members: Seq<(String, JsonValue)>, key: Seq<char>) -> Option<JsonValue>
    decreases members.len(),
{
    if members.len() == 0 {
        None
    } else if members[0].0@ == key {
        Some(members[0].1)
    } else {
        member_of(members.drop_first(), key)
    }
}

/// The strings among `items`, in order.
pub open spec fn json_strings(items: Seq<JsonValue>) -> Seq<Seq<char>>
    decreases items.len(),
{
    if items.len() == 0 {
        Seq::empty()
    } else {
        let rest = json_strings(items.drop_last());
        match items.last() {
            JsonValue::String(s) => rest.push(s@),
            _ => rest,
        }
    }
}

impl JsonValue {
    /// The member `key`, where `self` is an object that has it.
    pub open spec fn member(self, key: Seq<char>) -> Option<JsonValue> {
        match self {
            JsonValue::Object(members) => member_of(members@, key),
            _ => None,
        }
    }

    /// The string that the member `key` is, where it is one.
    pub open spec fn str_at(self, key: Seq<char>) -> Option<Seq<char>> {
        match self.member(key) {
            Some(JsonValue::String(s)) => Some(s@),
            _ => None,
        }
    }

    /// The integer that the member `key` is, where it is one.
    pub open spec fn i64_at(self, key: Seq<char>) -> Option<i64> {
        match self.member(key) {
            Some(JsonValue::Number(n)) => n.as_i64,
            _ => None,
        }
    }

    /// The bits of the double that the member `key` is, where it is a
    /// number.
    pub open spec fn f64_bits_at(self, key: Seq<char>) -> Option<u64> {
        match self.member(key) {
            Some(JsonValue::Number(n)) => n.as_f64_bits,
            _ => None,
        }
    }

    /// The items of the array that the member `key` is, where it is one.
    pub open spec fn items_at(self, key: Seq<char>) -> Option<Seq<JsonValue>> {
        match self.member(key) {
            Some(JsonValue::Array(items)) => Some(items@),
            _ => None,
        }
    }

    /// The member `key` of an object.
    pub fn get(&self, key: &str) -> (r: Option<&JsonValue>)
        ensures
            match r {
                Some(v) => self.member(key@) == Some(*v),
                None => self.member(key@) is None,
            },
    {
        match self {
            JsonValue::Object(members) => {
                let mut i: usize = 0;
                assert(members@.skip(0) =~= members@);
                while i < members.len()
                    invariant
                        i <= members.len(),
                        self == JsonValue::Object(*members),
                        member_of(members@, key@) == member_of(members@.skip(i as int), key@),
                    decreases members.len() - i,
                {
                    assert(members@.skip(i as int)[0] == members@[i as int]);
                    assert(members@.skip(i as int).drop_first() =~= members@.skip(i + 1));
                    if text::str_eq(members[i].0.as_str(), key) {
                        return Some(&members[i].1);
                    }
                    i += 1;
                }
                None
            },
            _ => None,
        }
    }

    /// The string that the member `key` is.
    pub fn get_str(&self, key: &str) -> (r: Option<String>)
        ensures
            opt_view(r) == self.str_at(key@),
    {
        match self.get(key) {
            Some(JsonValue::String(s)) => Some(s.clone()),
            _ => None,
        }
    }

    /// The integer that the member `key` is.
    pub fn get_i64(&self, key: &str) -> (r: Option<i64>)
        ensures
            r == self.i64_at(key@),
    {
        match self.get(key) {
            Some(JsonValue::Number(n)) => n.as_i64,
            _ => None,
        }
    }

    /// The bits of the double that the member `key` is.
    pub fn get_f64_bits(&self, key: &str) -> (r: Option<u64>)
        ensures
            r == self.f64_bits_at(key@),
    {
        match self.get(key) {
            Some(JsonValue::Number(n)) => n.as_f64_bits,
            _ => None,
        }
    }
}

/// The string or the empty string.
pub open spec fn or_empty(s: Option<Seq<char>>) -> Seq<char> {
    match s {
        Some(s) => s,
        None => Seq::empty(),
    }
}

/// The string member `key` of `item`, the empty string where there is none.
fn str_or_default(item: &JsonValue, key: &str) -> (r: String)
    ensures
        r@ == or_empty(item.str_at(key@)),
{
    match item.get_str(key) {
        Some(s) => s,
        None => String::new(),
    }
}

/// The string member `key` of `item`.
fn opt_str(item: &JsonValue, key: &str) -> (r: Option<String>)
    ensures
        opt_view(r) == item.str_at(key@),
{
    item.get_str(key)
}

/// The date of release that `item` gives: that of the current version where
/// the item names one, else that of the first; empty where what is named is
/// no string.
pub open spec fn release_date_of(item: JsonValue) -> Seq<char> {
    if item.member("currentVersionReleaseDate"@) is Some {
        or_empty(item.str_at("currentVersionReleaseDate"@))
    } else {
        or_empty(item.str_at("releaseDate"@))
    }
}

/// The screenshots that `item` gives: the strings of its list, none where
/// it has no list.
pub open spec fn screenshots_of(item: JsonValue) -> Seq<Seq<char>> {
    match item.items_at("screenshotUrls"@) {
        Some(items) => json_strings(items),
        None => Seq::empty(),
    }
}

/// The catalog item that `item` describes. There is one where `item` has an
/// integer `trackId` and strings `bundleId` and `trackName`; what else is
/// missing or of another type is empty, zero or absent.
pub open spec fn software_of(item: JsonValue) -> Option<SoftwareView> {
    if item.i64_at("trackId"@) is Some && item.str_at("bundleId"@) is Some && item.str_at(
        "trackName"@,
    ) is Some {
        Some(
            SoftwareView {
                id: item.i64_at("trackId"@)->0,
                bundle_id: item.str_at("bundleId"@)->0,
                name: item.str_at("trackName"@)->0,
                version: or_empty(item.str_at("version"@)),
                price_bits: item.f64_bits_at("price"@),
                artist_name: or_empty(item.str_at("artistName"@)),
                seller_name: or_empty(item.str_at("sellerName"@)),
                description: or_empty(item.str_at("description"@)),
                average_user_rating_bits: match item.f64_bits_at("averageUserRating"@) {
                    Some(bits) => bits,
                    None => 0,
                },
                user_rating_count: match item.i64_at("userRatingCount"@) {
                    Some(n) => n,
                    None => 0,
                },
                artwork_url: or_empty(item.str_at("artworkUrl512"@)),
                screenshot_urls: screenshots_of(item),
                minimum_os_version: or_empty(item.str_at("minimumOsVersion"@)),
                file_size_bytes: item.str_at("fileSizeBytes"@),
                release_date: release_date_of(item),
                release_notes: item.str_at("releaseNotes"@),
                formatted_price: item.str_at("formattedPrice"@),
                primary_genre_name: or_empty(item.str_at("primaryGenreName"@)),
            },
        )
    } else {
        None
    }
}

/// The view of an optional catalog item.
pub open spec fn software_opt_view(s: Option<Software>) -> Option<SoftwareView> {
    match s {
        Some(s) => Some(s@),
        None => None,
    }
}

/// The strings of the screenshot list of `item`.
fn screenshots(item: &JsonValue) -> (r: Vec<String>)
    ensures
        strs_view(r@) == screenshots_of(*item),
{
    match item.get("screenshotUrls") {
        Some(JsonValue::Array(items)) => {
            let mut out: Vec<String> = Vec::new();
            let mut i: usize = 0;
            while i < items.len()
                invariant
                    i <= items.len(),
                    strs_view(out@) == json_strings(items@.take(i as int)),
                decreases items.len() - i,
            {
                assert(items@.take(i + 1).drop_last() =~= items@.take(i as int));
                let ghost before = strs_view(out@);
                match &items[i] {
                    JsonValue::String(s) => {
                        out.push(s.clone());
                        assert(strs_view(out@) =~= before.push(s@));
                    },
                    _ => {},
                }
                i += 1;
            }
            assert(items@.take(items.len() as int) =~= items@);
            out
        },
        _ => {
            let out: Vec<String> = Vec::new();
            assert(strs_view(out@) =~= Seq::<Seq<char>>::empty());
            out
        },
    }
}

/// The date of release of `item`.
fn release_date(item: &JsonValue) -> (r: String)
    ensures
        r@ == release_date_of(*item),
{
    match item.get("currentVersionReleaseDate") {
        Some(JsonValue::String(s)) => s.clone(),
        Some(_) => String::new(),
        None => str_or_default(item, "releaseDate"),
    }
}

/// Reads a catalog item from one result of the store's search.
pub fn map_software(item: &JsonValue) -> (r: Option<Software>)
    ensures
        software_opt_view(r) == software_of(*item),
{
    let id = match item.get_i64("trackId") {
        Some(id) => id,
        None => {
            return None;
        },
    };
    let bundle_id = match item.get_str("bundleId") {
        Some(s) => s,
        None => {
            return None;
        },
    };
    let name = match item.get_str("trackName") {
        Some(s) => s,
        None => {
            return None;
        },
    };
    Some(
        Software {
            id,
            bundle_id,
            name,
            version: str_or_default(item, "version"),
            price_bits: item.get_f64_bits("price"),
            artist_name: str_or_default(item, "artistName"),
            seller_name: str_or_default(item, "sellerName"),
            description: str_or_default(item, "description"),
            average_user_rating_bits: match item.get_f64_bits("averageUserRating") {
                Some(bits) => bits,
                None => 0,
            },
            user_rating_count: match item.get_i64("userRatingCount") {
                Some(n) => n,
                None => 0,
            },
            artwork_url: str_or_default(item, "artworkUrl512"),
            screenshot_urls: screenshots(item),
            minimum_os_version: str_or_default(item, "minimumOsVersion"),
            file_size_bytes: opt_str(item, "fileSizeBytes"),
            release_date: release_date(item),
            release_notes: opt_str(item, "releaseNotes"),
            formatted_price: opt_str(item, "formattedPrice"),
            primary_genre_name: str_or_default(item, "primaryGenreName"),
        },
    )
}

/// The catalog items that `items` describe, in order; those that describe
/// none are left out.
pub open spec fn softwares_in(items: Seq<JsonValue>) -> Seq<SoftwareView>
    decreases items.len(),
{
    if items.len() == 0 {
        Seq::empty()
    } else {
        let rest = softwares_in(items.drop_last());
        match software_of(items.last()) {
            Some(s) => rest.push(s),
            None => rest,
        }
    }
}

/// The views of a list of catalog items.
pub open spec fn softwares_view(v: Seq<Software>) -> Seq<SoftwareView> {
    Seq::new(v.len(), |i: int| v[i]@)
}

/// Reads the catalog items from the answer to a search: those of its
/// `results`, none where it has no such list.
pub fn map_search_results(data: &JsonValue) -> (r: Vec<Software>)
    ensures
        softwares_view(r@) == (match data.items_at("results"@) {
            Some(items) => softwares_in(items),
            None => Seq::empty(),
        }),
{
    match data.get("results") {
        Some(JsonValue::Array(items)) => {
            let mut out: Vec<Software> = Vec::new();
            let mut i: usize = 0;
            while i < items.len()
                invariant
                    i <= items.len(),
                    softwares_view(out@) == softwares_in(items@.take(i as int)),
                decreases items.len() - i,
            {
                assert(items@.take(i + 1).drop_last() =~= items@.take(i as int));
                let ghost before = softwares_view(out@);
                match map_software(&items[i]) {
                    Some(s) => {
                        out.push(s);
                        assert(softwares_view(out@) =~= before.push(s@));
                    },
                    None => {},
                }
                i += 1;
            }
            assert(items@.take(items.len() as int) =~= items@);
            out
        },
        _ => {
            let out: Vec<Software> = Vec::new();
            assert(softwares_view(out@) =~= Seq::<SoftwareView>::empty());
            out
        },
    }
}

/// The catalog item that the answer to a lookup gives: that of the first of
/// its `results`, where its `resultCount` is an integer other than zero.
pub open spec fn lookup_of(data: JsonValue) -> Option<SoftwareView> {
    if data.i64_at("resultCount"@) is None || data.i64_at("resultCount"@) == Some(0i64) {
        None
    } else {
        match data.items_at("results"@) {
            Some(items) => if items.len() > 0 {
                software_of(items[0])
            } else {
                None
            },
            None => None,
        }
    }
}

/// Reads the catalog item from the answer to a lookup.
pub fn map_lookup_result(data: &JsonValue) -> (r: Option<Software>)
    ensures
        software_opt_view(r) == lookup_of(*data),
{
    let count = match data.get_i64("resultCount") {
        Some(n) => n,
        None => 0,
    };
    if count == 0 {
        return None;
    }
    match data.get("results") {
        Some(JsonValue::Array(items)) => {
            if items.len() > 0 {
                map_software(&items[0])
            } else {
                None
            }
        },
        _ => None,
    }
}

} // verus!
