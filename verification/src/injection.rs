//! Putting signing blobs into a package: finds the application bundle and
//! where its signing blobs belong, decodes the blobs and the metadata, plans
//! the files and rewrites the archive.

use crate::archive::{
    agrees, archive_source, entry_content, names_view, opt_bytes_view, open_archive, read_names,
    rewrite_opened, rewrite_outcome, zip_entry_content, zip_names, zip_readable, InjectionError,
    Outcome, SourceArchive,
};
use crate::plist_util::{
    get_string, get_string_array, parse_plist, plist_decoded, plist_reencoded,
    xml_to_binary_plist, PlistValue,
};
use crate::sinf::{
    blobs_of, bundle_name_of, extract_bundle_name, is_info_entry, is_info_plist,
    is_manifest_entry, is_manifest_plist, plan_injection, planned_files, InjectionSource,
    SourceView,
};
use crate::types::{sinfs_view, Sinf};
use vstd::prelude::*;
use vstd::utf8::encode_utf8;

verus! {

/// The bytes that `text` stands for in standard base64 with padding, as the
/// `STANDARD` engine of the `base64` crate decodes it; `None` where it
/// refuses the text.
pub uninterp spec fn base64_decoded(text: Seq<char>) -> Option<Seq<u8>>;

/// What `String::from_utf8_lossy` makes of `bytes`: their text, with U+FFFD
/// in place of what is not valid UTF-8.
pub uninterp spec fn lossy_text(bytes: Seq<u8>) -> Seq<char>;

/// Calls `Engine::decode` of `base64::engine::general_purpose::STANDARD`.
#[verifier::external_body]
fn base64_decode(text: &str) -> (r: Option<Vec<u8>>)
    ensures
        opt_bytes_view(r) == base64_decoded(text@),
{
    base64::Engine::decode(&base64::engine::general_purpose::STANDARD, text).ok()
}

/// Calls `String::from_utf8_lossy`.
#[verifier::external_body]
fn utf8_lossy(bytes: &[u8]) -> (s: String)
    ensures
        s@ == lossy_text(bytes@),
{
    String::from_utf8_lossy(bytes).into_owned()
}

/// Where a search through the entries of an archive ends.
#[derive(Debug, Clone, Copy, PartialEq, Eq, Structural)]
pub enum Scan {
    /// At the entry with this index, the first one sought.
    Found(usize),
    /// At an entry that cannot be read, before any that is sought.
    Unreadable,
    /// At the end: every entry can be read and none is sought.
    Absent,
}

/// The entry named `name` is sought: a manifest where `manifest` is set, a
/// bundle descriptor where it is not.
pub open spec fn sought(name: Seq<char>, manifest: bool) -> bool {
    if manifest {
        is_manifest_entry(name)
    } else {
        is_info_entry(name)
    }
}

/// Where the search that begins at entry `from` ends.
pub open spec fn scan_from(names: Seq<Option<Seq<char>>>, manifest: bool, from: int) -> Scan
    decreases names.len() - from,
{
    if from < 0 || from >= names.len() {
        Scan::Absent
    } else {
        match names[from] {
            None => Scan::Unreadable,
            Some(name) => if sought(name, manifest) {
                Scan::Found(from as usize)
            } else {
                scan_from(names, manifest, from + 1)
            },
        }
    }
}

/// Searches the entry names in order for the first manifest (`manifest` set)
/// or the first bundle descriptor (`manifest` not set). The search stops at
/// an entry whose name could not be read.
pub fn scan_entries(names: &Vec<Option<String>>, manifest: bool) -> (r: Scan)
    ensures
        r == scan_from(names_view(names@), manifest, 0),
        r matches Scan::Found(i) ==> i < names@.len() && names@[i as int] is Some && sought(
            names@[i as int]->0@,
            manifest,
        ),
{
    let mut i: usize = 0;
    while i < names.len()
        invariant
            i <= names.len(),
            scan_from(names_view(names@), manifest, 0) == scan_from(
                names_view(names@),
                manifest,
                i as int,
            ),
        decreases names.len() - i,
    {
        match &names[i] {
            None => {
                return Scan::Unreadable;
            },
            Some(name) => {
                assert(names_view(names@)[i as int] == Some(name@));
                let hit = if manifest {
                    is_manifest_plist(name.as_str())
                } else {
                    is_info_plist(name.as_str())
                };
                if hit {
                    return Scan::Found(i);
                }
            },
        }
        i += 1;
    }
    Scan::Absent
}

/// The view of an optional injection source.
pub open spec fn source_opt_view(s: Option<InjectionSource>) -> Option<SourceView> {
    match s {
        Some(s) => Some(s@),
        None => None,
    }
}

/// The source that a manifest gives: its `SinfPaths`, where it has a list of
/// that name that holds at least one string.
pub open spec fn manifest_source_of(tree: Option<PlistValue>) -> Option<SourceView> {
    match tree {
        Some(t) => match t.strings_at("SinfPaths"@) {
            Some(paths) => if paths.len() > 0 {
                Some(SourceView::Manifest { sinf_paths: paths })
            } else {
                None
            },
            None => None,
        },
        None => None,
    }
}

/// The source that a bundle descriptor gives: its `CFBundleExecutable`,
/// where it has a string of that name.
pub open spec fn info_source_of(tree: Option<PlistValue>) -> Option<SourceView> {
    match tree {
        Some(t) => match t.string_at("CFBundleExecutable"@) {
            Some(exec) => Some(SourceView::Info { bundle_executable: exec }),
            None => None,
        },
        None => None,
    }
}

/// The injection source that the parsed manifest gives, if any.
pub fn manifest_source(tree: &Option<PlistValue>) -> (r: Option<InjectionSource>)
    ensures
        source_opt_view(r) == manifest_source_of(*tree),
{
    match tree {
        Some(t) => match get_string_array(t, "SinfPaths") {
            Some(paths) => {
                if paths.len() > 0 {
                    let source = InjectionSource::Manifest { sinf_paths: paths };
                    assert(source@ == (SourceView::Manifest {
                        sinf_paths: t.strings_at("SinfPaths"@)->0,
                    }));
                    Some(source)
                } else {
                    None
                }
            },
            None => None,
        },
        None => None,
    }
}

/// The injection source that the parsed bundle descriptor gives, if any.
pub fn info_source(tree: &Option<PlistValue>) -> (r: Option<InjectionSource>)
    ensures
        source_opt_view(r) == info_source_of(*tree),
{
    match tree {
        Some(t) => match get_string(t, "CFBundleExecutable") {
            Some(exec) => Some(InjectionSource::Info { bundle_executable: exec }),
            None => None,
        },
        None => None,
    }
}

/// The source that the manifest of the archive in `data` gives. `Ok(None)`
/// where there is no manifest or it gives none.
pub open spec fn manifest_stage(data: Seq<u8>) -> Result<Option<SourceView>, InjectionError> {
    match scan_from(zip_names(data), true, 0) {
        Scan::Unreadable => Err(InjectionError::ReadEntry),
        Scan::Absent => Ok(None),
        Scan::Found(m) => match zip_entry_content(data, m as int) {
            None => Err(InjectionError::ReadEntry),
            Some(bytes) => Ok(manifest_source_of(plist_decoded(bytes))),
        },
    }
}

/// The bundle name and the injection source of the archive in `data`. The
/// name comes from the first bundle descriptor; the source from the first
/// manifest, or else from that descriptor.
pub open spec fn discovered(data: Seq<u8>) -> Result<(Seq<char>, SourceView), InjectionError> {
    match scan_from(zip_names(data), false, 0) {
        Scan::Unreadable => Err(InjectionError::ReadEntry),
        Scan::Absent => Err(InjectionError::MissingBundleName),
        Scan::Found(b) => {
            let bundle = bundle_name_of(zip_names(data)[b as int]->0)->0;
            match manifest_stage(data) {
                Err(e) => Err(e),
                Ok(Some(source)) => Ok((bundle, source)),
                Ok(None) => match zip_entry_content(data, b as int) {
                    None => Err(InjectionError::ReadEntry),
                    Some(bytes) => match info_source_of(plist_decoded(bytes)) {
                        Some(source) => Ok((bundle, source)),
                        None => Err(InjectionError::MissingSource),
                    },
                },
            }
        },
    }
}

/// The view of what discovery returns.
pub open spec fn discovery_view(r: Result<(String, InjectionSource), InjectionError>) -> Result<
    (Seq<char>, SourceView),
    InjectionError,
> {
    match r {
        Ok(found) => Ok((found.0@, found.1@)),
        Err(e) => Err(e),
    }
}

/// Finds the bundle name and the injection source of an opened archive.
fn discover(archive: &mut SourceArchive<'_>, names: &Vec<Option<String>>) -> (r: Result<
    (String, InjectionSource),
    InjectionError,
>)
    requires
        names_view(names@) == zip_names(archive_source(*old(archive))),
    ensures
        archive_source(*final(archive)) == archive_source(*old(archive)),
        discovery_view(r) == discovered(archive_source(*old(archive))),
{
    let ghost data = archive_source(*archive);
    let b = match scan_entries(names, false) {
        Scan::Unreadable => {
            return Err(InjectionError::ReadEntry);
        },
        Scan::Absent => {
            return Err(InjectionError::MissingBundleName);
        },
        Scan::Found(b) => b,
    };
    let bundle = match &names[b] {
        Some(name) => {
            assert(names_view(names@)[b as int] == Some(name@));
            match extract_bundle_name(name.as_str()) {
                Some(bundle) => bundle,
                None => {
                    return Err(InjectionError::MissingBundleName);
                },
            }
        },
        None => {
            return Err(InjectionError::MissingBundleName);
        },
    };
    match scan_entries(names, true) {
        Scan::Unreadable => {
            return Err(InjectionError::ReadEntry);
        },
        Scan::Absent => {},
        Scan::Found(m) => {
            match entry_content(archive, m) {
                None => {
                    return Err(InjectionError::ReadEntry);
                },
                Some(bytes) => {
                    let tree = parse_plist(bytes.as_slice());
                    if let Some(source) = manifest_source(&tree) {
                        return Ok((bundle, source));
                    }
                },
            }
        },
    }
    match entry_content(archive, b) {
        None => Err(InjectionError::ReadEntry),
        Some(bytes) => {
            let tree = parse_plist(bytes.as_slice());
            match info_source(&tree) {
                Some(source) => Ok((bundle, source)),
                None => Err(InjectionError::MissingSource),
            }
        },
    }
}

/// Every blob of the list is valid base64.
pub open spec fn all_decodable(sinfs: Seq<(i64, Seq<char>)>) -> bool {
    forall|i: int| 0 <= i < sinfs.len() ==> base64_decoded(#[trigger] sinfs[i].1) is Some
}

/// The decoded blobs of the list, in order.
pub open spec fn decoded_blobs(sinfs: Seq<(i64, Seq<char>)>) -> Seq<Seq<u8>> {
    Seq::new(sinfs.len(), |i: int| base64_decoded(sinfs[i].1)->0)
}

/// Decodes the blobs of the list. `None` where one is not valid base64.
fn decode_sinfs(sinfs: &[Sinf]) -> (r: Option<Vec<(i64, Vec<u8>)>>)
    ensures
        r is Some <==> all_decodable(sinfs_view(sinfs@)),
        r matches Some(v) ==> blobs_of(v@) == decoded_blobs(sinfs_view(sinfs@)),
{
    let ghost view = sinfs_view(sinfs@);
    let mut out: Vec<(i64, Vec<u8>)> = Vec::new();
    let mut i: usize = 0;
    while i < sinfs.len()
        invariant
            i <= sinfs.len(),
            view == sinfs_view(sinfs@),
            out@.len() == i,
            forall|k: int| 0 <= k < i ==> base64_decoded(#[trigger] view[k].1) is Some,
            forall|k: int|
                0 <= k < i ==> (#[trigger] out@[k]).1@ == base64_decoded(view[k].1)->0,
        decreases sinfs.len() - i,
    {
        assert(view[i as int].1 == sinfs@[i as int].sinf@);
        match base64_decode(sinfs[i].sinf.as_str()) {
            None => {
                return None;
            },
            Some(data) => {
                out.push((sinfs[i].id, data));
            },
        }
        i += 1;
    }
    assert(blobs_of(out@) =~= decoded_blobs(view));
    Some(out)
}

/// The metadata file for the decoded metadata `xml`: its binary encoding
/// where its text is a property list that can be encoded, else `xml` itself.
pub open spec fn metadata_payload(xml: Seq<u8>) -> Seq<u8> {
    match plist_reencoded(encode_utf8(lossy_text(xml))) {
        Some(binary) => binary,
        None => xml,
    }
}

/// The metadata file for the metadata in base64, `None` without metadata.
pub open spec fn metadata_of(metadata: Option<Seq<char>>) -> Result<
    Option<Seq<u8>>,
    InjectionError,
> {
    match metadata {
        None => Ok(None),
        Some(text) => match base64_decoded(text) {
            None => Err(InjectionError::DecodeMetadata),
            Some(xml) => Ok(Some(metadata_payload(xml))),
        },
    }
}

/// The contents of the metadata file: the binary encoding where there is
/// one, else the decoded metadata as it came.
pub fn metadata_or_raw(xml: Vec<u8>, binary: Result<Vec<u8>, String>) -> (r: Vec<u8>)
    ensures
        r@ == match binary {
            Ok(b) => b@,
            Err(_) => xml@,
        },
{
    match binary {
        Ok(b) => b,
        Err(_) => xml,
    }
}

/// Decodes the metadata and encodes it in binary form where that is
/// possible. `None` where it is not valid base64.
fn prepare_metadata(metadata_b64: &str) -> (r: Option<Vec<u8>>)
    ensures
        match base64_decoded(metadata_b64@) {
            Some(xml) => opt_bytes_view(r) == Some(metadata_payload(xml)),
            None => r is None,
        },
{
    match base64_decode(metadata_b64) {
        None => None,
        Some(xml) => {
            let text = utf8_lossy(xml.as_slice());
            let binary = xml_to_binary_plist(text.as_str());
            Some(metadata_or_raw(xml, binary))
        },
    }
}

/// The view of an optional string slice.
pub open spec fn opt_str(s: Option<&str>) -> Option<Seq<char>> {
    match s {
        Some(s) => Some(s@),
        None => None,
    }
}

/// What the injection of the blobs `sinfs` and the metadata `metadata`, both
/// in base64, into the archive in `data` comes to.
pub open spec fn injection_outcome(
    data: Seq<u8>,
    sinfs: Seq<(i64, Seq<char>)>,
    metadata: Option<Seq<char>>,
) -> Outcome {
    if !zip_readable(data) {
        Outcome::Fails(InjectionError::ReadArchive)
    } else {
        match discovered(data) {
            Err(e) => Outcome::Fails(e),
            Ok(found) => if !all_decodable(sinfs) {
                Outcome::Fails(InjectionError::DecodeSinf)
            } else {
                match metadata_of(metadata) {
                    Err(e) => Outcome::Fails(e),
                    Ok(file) => rewrite_outcome(
                        data,
                        zip_names(data),
                        planned_files(found.0, found.1, decoded_blobs(sinfs), file),
                    ),
                }
            },
        }
    }
}

/// Puts the signing blobs, and the metadata if given, into the package
/// `ipa_data` and returns the new package. The blobs go where the bundle's
/// manifest says, or else beside the bundle's executable. Where nothing is
/// to be written the package is returned as it is.
pub fn inject_sinfs_in_memory(
    ipa_data: &[u8],
    sinfs: &[Sinf],
    itunes_metadata_b64: Option<&str>,
) -> (r: Result<Vec<u8>, InjectionError>)
    ensures
        agrees(
            r,
            injection_outcome(ipa_data@, sinfs_view(sinfs@), opt_str(itunes_metadata_b64)),
            ipa_data@,
        ),
{
    let mut archive = match open_archive(ipa_data) {
        None => {
            return Err(InjectionError::ReadArchive);
        },
        Some(archive) => archive,
    };
    let names = read_names(&mut archive);
    let (bundle, source) = match discover(&mut archive, &names) {
        Err(e) => {
            return Err(e);
        },
        Ok(found) => found,
    };
    let blobs = match decode_sinfs(sinfs) {
        None => {
            return Err(InjectionError::DecodeSinf);
        },
        Some(blobs) => blobs,
    };
    let metadata: Option<Vec<u8>> = match itunes_metadata_b64 {
        None => None,
        Some(text) => match prepare_metadata(text) {
            None => {
                return Err(InjectionError::DecodeMetadata);
            },
            Some(file) => Some(file),
        },
    };
    let plan = match &metadata {
        Some(file) => plan_injection(
            bundle.as_str(),
            &source,
            blobs.as_slice(),
            Some(file.as_slice()),
        ),
        None => plan_injection(bundle.as_str(), &source, blobs.as_slice(), None),
    };
    rewrite_opened(&mut archive, ipa_data, &names, &plan)
}

/// What is kept of the package `data` after the injection of `sinfs` and
/// `metadata` was tried: the rewritten package, or `data` itself where
/// nothing was to be written or the injection failed.
pub open spec fn patched_or_kept(
    data: Seq<u8>,
    sinfs: Seq<(i64, Seq<char>)>,
    metadata: Option<Seq<char>>,
) -> Seq<u8> {
    match injection_outcome(data, sinfs, metadata) {
        Outcome::Rewritten(entries) => match crate::archive::written(entries) {
            Some(image) => image,
            None => data,
        },
        _ => data,
    }
}

/// Why the injection of `sinfs` and `metadata` into the package `data`
/// fails, if it does.
pub open spec fn injection_failure(
    data: Seq<u8>,
    sinfs: Seq<(i64, Seq<char>)>,
    metadata: Option<Seq<char>>,
) -> Option<InjectionError> {
    match injection_outcome(data, sinfs, metadata) {
        Outcome::Fails(e) => Some(e),
        Outcome::Unchanged => None,
        Outcome::Rewritten(entries) => if crate::archive::written(entries) is Some {
            None
        } else {
            Some(InjectionError::WriteArchive)
        },
    }
}

/// Tries the injection on `ipa_data` and returns the package to store with
/// the failure, if there was one: the new package where the injection
/// succeeded, `ipa_data` itself where it failed.
pub fn inject_and_report(
    ipa_data: Vec<u8>,
    sinfs: &[Sinf],
    itunes_metadata_b64: Option<&str>,
) -> (r: (Vec<u8>, Option<InjectionError>))
    ensures
        r.0@ == patched_or_kept(ipa_data@, sinfs_view(sinfs@), opt_str(itunes_metadata_b64)),
        r.1 == injection_failure(ipa_data@, sinfs_view(sinfs@), opt_str(itunes_metadata_b64)),
{
    match inject_sinfs_in_memory(ipa_data.as_slice(), sinfs, itunes_metadata_b64) {
        Ok(modified) => (modified, None),
        Err(e) => (ipa_data, Some(e)),
    }
}

/// The package to store when injection was tried on `ipa_data`: the new
/// package where injection succeeded, `ipa_data` itself where it failed.
pub fn inject_or_keep(
    ipa_data: Vec<u8>,
    sinfs: &[Sinf],
    itunes_metadata_b64: Option<&str>,
) -> (r: Vec<u8>)
    ensures
        r@ == patched_or_kept(ipa_data@, sinfs_view(sinfs@), opt_str(itunes_metadata_b64)),
{
    inject_and_report(ipa_data, sinfs, itunes_metadata_b64).0
}

} // verus!
