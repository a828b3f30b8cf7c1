//! The archive rewrite engine: reads a ZIP archive from memory, copies the
//! entries that a plan leaves alone as they are, without decompressing them,
//! and writes the planned files uncompressed.

use crate::sinf::InjectionPlan;
use crate::text;
use crate::types::opt_view;
use vstd::prelude::*;
use vstd::string::StringSliceAdditionalSpecFns;
use vstd::utf8::encode_utf8;

verus! {

/// `zip::ZipArchive`, an archive opened for reading; nothing of its inside
/// is known here.
#[verifier::external_type_specification]
#[verifier::external_body]
#[verifier::reject_recursive_types(R)]
pub struct ExZipArchive<R>(zip::ZipArchive<R>);

/// `std::io::Cursor`, a position in a buffer; nothing of its inside is
/// known here.
#[verifier::external_type_specification]
#[verifier::external_body]
#[verifier::reject_recursive_types(T)]
pub struct ExCursor<T>(std::io::Cursor<T>);

/// An archive that is read from bytes in memory.
pub type SourceArchive<'a> = zip::ZipArchive<std::io::Cursor<&'a [u8]>>;

/// An archive that is being written to memory: a `zip::ZipWriter` over a
/// cursor, held here because the writer's own type cannot be declared.
/// Nothing of its inside is known to the proofs; what was written to it is
/// [`written_entries`].
#[verifier::external_body]
pub struct ArchiveWriter {
    inner: zip::ZipWriter<std::io::Cursor<Vec<u8>>>,
}

/// An entry that was written to an archive.
pub enum WrittenEntry {
    /// The entry `index` of the archive in `source`, taken over under its
    /// name with its compressed bytes and compression method as they are.
    Copied { source: Seq<u8>, index: int },
    /// A new entry at `path` that holds `data` uncompressed.
    Stored { path: Seq<char>, data: Seq<u8> },
}

/// Whether `zip::ZipArchive::new` accepts `data` as an archive.
pub uninterp spec fn zip_readable(data: Seq<u8>) -> bool;

/// The entries of the archive in `data`, in the order of its central
/// directory: for each the name that `by_index_raw` gives, or `None` where
/// `by_index_raw` fails.
pub uninterp spec fn zip_names(data: Seq<u8>) -> Seq<Option<Seq<char>>>;

/// The decompressed contents of entry `index` of the archive in `data`, as
/// `by_index` and reading to the end give them; `None` where either fails.
pub uninterp spec fn zip_entry_content(data: Seq<u8>, index: int) -> Option<Seq<u8>>;

/// The bytes that an archive is read from.
pub uninterp spec fn archive_source(archive: zip::ZipArchive<std::io::Cursor<&[u8]>>) -> Seq<u8>;

/// The entries written to an archive so far, in order.
pub uninterp spec fn written_entries(writer: ArchiveWriter) -> Seq<WrittenEntry>;

/// Whether `ZipWriter::raw_copy_file` succeeds for entry `index` of the
/// archive in `source` on a writer to which `before` was written.
pub uninterp spec fn zip_copy_ok(before: Seq<WrittenEntry>, source: Seq<u8>, index: int) -> bool;

/// Whether `ZipWriter::start_file` succeeds for an uncompressed entry at
/// `path` on a writer to which `before` was written.
pub uninterp spec fn zip_start_ok(before: Seq<WrittenEntry>, path: Seq<char>) -> bool;

/// Whether writing `data` to the entry that was started at `path` succeeds
/// on a writer to which `before` was written.
pub uninterp spec fn zip_write_ok(before: Seq<WrittenEntry>, path: Seq<char>, data: Seq<u8>) -> bool;

/// The bytes of the finished archive that holds `entries`, as
/// `ZipWriter::finish` returns them; `None` where it fails.
pub uninterp spec fn zip_image(entries: Seq<WrittenEntry>) -> Option<Seq<u8>>;

/// The most bytes that the name of an entry may have in UTF-8: the length
/// of a name is written in 16 bits.
pub const MAX_NAME_BYTES: usize = 65535;

/// The name can be written to an archive: it has `MAX_NAME_BYTES` bytes at
/// most.
pub open spec fn name_fits(name: Seq<char>) -> bool {
    encode_utf8(name).len() <= MAX_NAME_BYTES
}

/// A writer to which `before` was written takes `entry` next: its name
/// fits, and the entry to copy can be read from its archive and is copied,
/// or the entry to store is started and written.
pub open spec fn takes(before: Seq<WrittenEntry>, entry: WrittenEntry) -> bool {
    match entry {
        WrittenEntry::Copied { source, index } => 0 <= index < zip_names(source).len()
            && zip_names(source)[index] is Some && name_fits(zip_names(source)[index]->0)
            && zip_copy_ok(before, source, index),
        WrittenEntry::Stored { path, data } => name_fits(path) && zip_start_ok(before, path)
            && zip_write_ok(before, path, data),
    }
}

/// Calls `zip::ZipArchive::new` on a cursor over `data`. Whether it succeeds
/// depends on `data` alone.
#[verifier::external_body]
pub(crate) fn open_archive<'a>(data: &'a [u8]) -> (r: Option<SourceArchive<'a>>)
    ensures
        r is Some <==> zip_readable(data@),
        r matches Some(a) ==> archive_source(a) == data@,
{
    zip::ZipArchive::new(std::io::Cursor::new(data)).ok()
}

/// Calls `ZipArchive::len`: the number of entries in the central directory.
#[verifier::external_body]
fn entry_count(archive: &SourceArchive<'_>) -> (n: usize)
    ensures
        n == zip_names(archive_source(*archive)).len(),
{
    archive.len()
}

/// Calls `ZipArchive::by_index_raw` and `ZipFile::name`. The archive's
/// entries stay as they are; only the position of its reader moves.
#[verifier::external_body]
fn entry_name(archive: &mut SourceArchive<'_>, index: usize) -> (r: Option<String>)
    requires
        index < zip_names(archive_source(*old(archive))).len(),
    ensures
        archive_source(*final(archive)) == archive_source(*old(archive)),
        opt_view(r) == zip_names(archive_source(*old(archive)))[index as int],
{
    archive.by_index_raw(index).ok().map(|file| file.name().to_string())
}

/// Calls `ZipArchive::by_index` and reads the entry to its end, which
/// decompresses it.
#[verifier::external_body]
pub(crate) fn entry_content(archive: &mut SourceArchive<'_>, index: usize) -> (r: Option<Vec<u8>>)
    ensures
        archive_source(*final(archive)) == archive_source(*old(archive)),
        opt_bytes_view(r) == zip_entry_content(archive_source(*old(archive)), index as int),
{
    let mut file = archive.by_index(index).ok()?;
    let mut buf = Vec::new();
    std::io::Read::read_to_end(&mut file, &mut buf).ok().map(|_| buf)
}

/// Calls `zip::ZipWriter::new` on a cursor over an empty buffer.
#[verifier::external_body]
fn new_writer() -> (writer: ArchiveWriter)
    ensures
        written_entries(writer) == Seq::<WrittenEntry>::empty(),
{
    ArchiveWriter { inner: zip::ZipWriter::new(std::io::Cursor::new(Vec::new())) }
}

/// Calls `ZipArchive::by_index_raw` and hands the entry to
/// `ZipWriter::raw_copy_file`, which writes it under its name without
/// decompressing it. Returns whether both succeeded, which depends on what
/// was written before and on the entry alone. The writer does not return
/// for a name of more than `MAX_NAME_BYTES` bytes, so the entry must be one
/// with a name that fits.
#[verifier::external_body]
fn copy_entry(writer: &mut ArchiveWriter, archive: &mut SourceArchive<'_>, index: usize) -> (ok:
    bool)
    requires
        index < zip_names(archive_source(*old(archive))).len(),
        zip_names(archive_source(*old(archive)))[index as int] matches Some(name) && name_fits(
            name,
        ),
    ensures
        archive_source(*final(archive)) == archive_source(*old(archive)),
        ok == zip_copy_ok(
            written_entries(*old(writer)),
            archive_source(*old(archive)),
            index as int,
        ),
        ok ==> written_entries(*final(writer)) == written_entries(*old(writer)).push(
            WrittenEntry::Copied { source: archive_source(*old(archive)), index: index as int },
        ),
{
    match archive.by_index_raw(index) {
        Ok(file) => writer.inner.raw_copy_file(file).is_ok(),
        Err(_) => false,
    }
}

/// Calls `ZipWriter::start_file` for `path` with the default options and the
/// compression method `Stored`, then writes `data` to it. Returns whether
/// both succeeded, which depends on what was written before, on the path and
/// on the data alone. The writer does not return for a path of more than
/// `MAX_NAME_BYTES` bytes, so the path must fit.
#[verifier::external_body]
fn store_entry(writer: &mut ArchiveWriter, path: &str, data: &[u8]) -> (ok: bool)
    requires
        path.spec_bytes().len() <= MAX_NAME_BYTES,
    ensures
        ok == (zip_start_ok(written_entries(*old(writer)), path@) && zip_write_ok(
            written_entries(*old(writer)),
            path@,
            data@,
        )),
        ok ==> written_entries(*final(writer)) == written_entries(*old(writer)).push(
            WrittenEntry::Stored { path: path@, data: data@ },
        ),
{
    let options = zip::write::SimpleFileOptions::default().compression_method(
        zip::CompressionMethod::Stored,
    );
    writer.inner.start_file(path, options).is_ok() && std::io::Write::write_all(
        &mut writer.inner,
        data,
    ).is_ok()
}

/// Calls `ZipWriter::finish` and takes the buffer out of the cursor. With
/// this crate's features the writer stamps new entries with a fixed date, so
/// the outcome depends on the entries alone.
#[verifier::external_body]
fn finish_archive(writer: ArchiveWriter) -> (r: Option<Vec<u8>>)
    ensures
        opt_bytes_view(r) == zip_image(written_entries(writer)),
{
    writer.inner.finish().ok().map(|cursor| cursor.into_inner())
}

/// The view of optional bytes.
pub open spec fn opt_bytes_view(b: Option<Vec<u8>>) -> Option<Seq<u8>> {
    match b {
        Some(b) => Some(b@),
        None => None,
    }
}

/// The views of a list of entry names.
pub open spec fn names_view(names: Seq<Option<String>>) -> Seq<Option<Seq<char>>> {
    Seq::new(names.len(), |i: int| opt_view(names[i]))
}

/// Why signing blobs could not be put into an archive.
#[derive(Debug, Clone, Copy, PartialEq, Eq, Structural)]
pub enum InjectionError {
    /// The data is no archive that can be read.
    ReadArchive,
    /// An entry of the archive cannot be read.
    ReadEntry,
    /// No entry names the application bundle.
    MissingBundleName,
    /// Neither the manifest nor the bundle's descriptor says where the
    /// signing blobs belong.
    MissingSource,
    /// A signing blob is not valid base64.
    DecodeSinf,
    /// The metadata is not valid base64.
    DecodeMetadata,
    /// The new archive could not be written.
    WriteArchive,
}

impl InjectionError {
    /// A short description.
    pub fn message(&self) -> (s: &'static str)
        ensures
            s@ == match self {
                InjectionError::ReadArchive => "Read ZIP"@,
                InjectionError::ReadEntry => "Read entry"@,
                InjectionError::MissingBundleName => "Could not read bundle name"@,
                InjectionError::MissingSource => "Could not read manifest or info plist"@,
                InjectionError::DecodeSinf => "Decode sinf"@,
                InjectionError::DecodeMetadata => "Decode metadata"@,
                InjectionError::WriteArchive => "Write ZIP"@,
            },
    {
        match self {
            InjectionError::ReadArchive => "Read ZIP",
            InjectionError::ReadEntry => "Read entry",
            InjectionError::MissingBundleName => "Could not read bundle name",
            InjectionError::MissingSource => "Could not read manifest or info plist",
            InjectionError::DecodeSinf => "Decode sinf",
            InjectionError::DecodeMetadata => "Decode metadata",
            InjectionError::WriteArchive => "Write ZIP",
        }
    }
}

/// The names of all entries of an archive, `None` for one that cannot be
/// read.
pub(crate) fn read_names(archive: &mut SourceArchive<'_>) -> (names: Vec<Option<String>>)
    ensures
        archive_source(*final(archive)) == archive_source(*old(archive)),
        names_view(names@) == zip_names(archive_source(*old(archive))),
{
    let n = entry_count(archive);
    let mut names: Vec<Option<String>> = Vec::new();
    let mut i: usize = 0;
    while i < n
        invariant
            i <= n,
            n == zip_names(archive_source(*old(archive))).len(),
            archive_source(*archive) == archive_source(*old(archive)),
            names@.len() == i,
            forall|k: int|
                0 <= k < i ==> opt_view(#[trigger] names@[k]) == zip_names(
                    archive_source(*old(archive)),
                )[k],
        decreases n - i,
    {
        let name = entry_name(archive, i);
        names.push(name);
        i += 1;
    }
    assert(names_view(names@) =~= zip_names(archive_source(*old(archive))));
    names
}

/// `name` is the path of one of the files of `plan`.
pub open spec fn is_planned(plan: Seq<(Seq<char>, Seq<u8>)>, name: Seq<char>) -> bool {
    exists|k: int| 0 <= k < plan.len() && (#[trigger] plan[k]).0 == name
}

/// The indices below `n` of the entries that `plan` leaves alone, in order.
/// An entry without a readable name counts as left alone.
pub open spec fn kept_below(
    names: Seq<Option<Seq<char>>>,
    plan: Seq<(Seq<char>, Seq<u8>)>,
    n: int,
) -> Seq<int>
    decreases n,
{
    if n <= 0 {
        Seq::empty()
    } else {
        let before = kept_below(names, plan, n - 1);
        match names[n - 1] {
            Some(name) => if is_planned(plan, name) {
                before
            } else {
                before.push(n - 1)
            },
            None => before.push(n - 1),
        }
    }
}

/// The entries of the rewritten archive: the source's entries that `plan`
/// leaves alone, copied in their order, then the files of `plan`, stored in
/// their order.
pub open spec fn rewritten_entries(
    source: Seq<u8>,
    names: Seq<Option<Seq<char>>>,
    plan: Seq<(Seq<char>, Seq<u8>)>,
) -> Seq<WrittenEntry> {
    copied_entries(source, kept_below(names, plan, names.len() as int)) + stored_entries(plan)
}

/// One copied entry for each index of `kept`.
pub open spec fn copied_entries(source: Seq<u8>, kept: Seq<int>) -> Seq<WrittenEntry> {
    Seq::new(kept.len(), |j: int| WrittenEntry::Copied { source, index: kept[j] })
}

/// One stored entry for each file of `plan`.
pub open spec fn stored_entries(plan: Seq<(Seq<char>, Seq<u8>)>) -> Seq<WrittenEntry> {
    Seq::new(plan.len(), |k: int| WrittenEntry::Stored { path: plan[k].0, data: plan[k].1 })
}

/// The indices of a list as integers.
pub open spec fn indices_view(v: Seq<usize>) -> Seq<int> {
    Seq::new(v.len(), |j: int| v[j] as int)
}

/// Whether `name` is the path of one of the files of `plan`.
pub fn plan_holds(plan: &InjectionPlan, name: &str) -> (b: bool)
    ensures
        b == is_planned(plan@, name@),
{
    let mut k: usize = 0;
    while k < plan.files.len()
        invariant
            k <= plan.files.len(),
            forall|j: int| 0 <= j < k ==> (#[trigger] plan@[j]).0 != name@,
        decreases plan.files.len() - k,
    {
        assert(plan@[k as int].0 == plan.files@[k as int].0@);
        if text::str_eq(plan.files[k].0.as_str(), name) {
            return true;
        }
        k += 1;
    }
    false
}

/// The indices of the entries to copy when an archive with the entry names
/// `names` is rewritten by `plan`: those whose name is not a path of the
/// plan, in order. `None` where an entry has no readable name.
pub fn kept_indices(names: &Vec<Option<String>>, plan: &InjectionPlan) -> (r: Option<Vec<usize>>)
    ensures
        r is None <==> exists|i: int| 0 <= i < names@.len() && names@[i] is None,
        r matches Some(kept) ==> indices_view(kept@) == kept_below(
            names_view(names@),
            plan@,
            names@.len() as int,
        ),
{
    let mut kept: Vec<usize> = Vec::new();
    let mut i: usize = 0;
    while i < names.len()
        invariant
            i <= names.len(),
            forall|j: int| 0 <= j < i ==> names@[j] is Some,
            indices_view(kept@) == kept_below(names_view(names@), plan@, i as int),
        decreases names.len() - i,
    {
        let ghost before = indices_view(kept@);
        match &names[i] {
            None => {
                return None;
            },
            Some(name) => {
                assert(names_view(names@)[i as int] == Some(name@));
                if !plan_holds(plan, name.as_str()) {
                    kept.push(i);
                    assert(indices_view(kept@) =~= before.push(i as int));
                }
            },
        }
        i += 1;
    }
    Some(kept)
}

/// A writer takes the entries of `entries` one after the other.
pub open spec fn all_taken(entries: Seq<WrittenEntry>) -> bool
    decreases entries.len(),
{
    entries.len() == 0 || (all_taken(entries.drop_last()) && takes(
        entries.drop_last(),
        entries.last(),
    ))
}

/// The archive that comes of writing `entries` in order to a new writer and
/// finishing it: `None` where the writer does not take one of them, or
/// cannot finish.
pub open spec fn written(entries: Seq<WrittenEntry>) -> Option<Seq<u8>> {
    if all_taken(entries) {
        zip_image(entries)
    } else {
        None
    }
}

/// Where all of `entries` are taken, so are the first `n`, and the one after
/// them is taken next.
pub proof fn lemma_taken_so_far(entries: Seq<WrittenEntry>, n: int)
    requires
        all_taken(entries),
        0 <= n <= entries.len(),
    ensures
        all_taken(entries.take(n)),
        n < entries.len() ==> takes(entries.take(n), entries[n]),
    decreases entries.len() - n,
{
    if n == entries.len() {
        assert(entries.take(n) =~= entries);
    } else {
        lemma_taken_so_far(entries, n + 1);
        let next = entries.take(n + 1);
        assert(next.drop_last() =~= entries.take(n));
        assert(next.last() == entries[n]);
    }
}

/// Whether the name can be written to an archive.
pub fn fits_as_name(name: &str) -> (b: bool)
    ensures
        b == name_fits(name@),
{
    name.as_bytes().len() <= MAX_NAME_BYTES
}

/// Copies the entries `kept` of `archive` and stores the files of `plan`, in
/// this order, and finishes the archive. `None` where an entry cannot be
/// copied or stored, be it for a name that does not fit, or the archive
/// cannot be finished.
fn write_archive(
    archive: &mut SourceArchive<'_>,
    names: &Vec<Option<String>>,
    kept: &Vec<usize>,
    plan: &InjectionPlan,
) -> (r: Option<Vec<u8>>)
    requires
        names_view(names@) == zip_names(archive_source(*old(archive))),
    ensures
        archive_source(*final(archive)) == archive_source(*old(archive)),
        opt_bytes_view(r) == written(
            copied_entries(archive_source(*old(archive)), indices_view(kept@)) + stored_entries(
                plan@,
            ),
        ),
{
    let ghost source = archive_source(*archive);
    let ghost copied = copied_entries(source, indices_view(kept@));
    let ghost all = copied + stored_entries(plan@);
    let mut writer = new_writer();
    let mut j: usize = 0;
    assert(all.take(0) =~= Seq::<WrittenEntry>::empty());
    while j < kept.len()
        invariant
            j <= kept.len(),
            archive_source(*archive) == source,
            source == archive_source(*old(archive)),
            names_view(names@) == zip_names(source),
            copied == copied_entries(source, indices_view(kept@)),
            all == copied + stored_entries(plan@),
            written_entries(writer) == all.take(j as int),
            all_taken(all.take(j as int)),
        decreases kept.len() - j,
    {
        let index = kept[j];
        assert(all[j as int] == (WrittenEntry::Copied { source, index: index as int }));
        let fits = index < names.len() && match &names[index] {
            Some(name) => {
                assert(names_view(names@)[index as int] == Some(name@));
                fits_as_name(name.as_str())
            },
            None => {
                assert(names_view(names@)[index as int] is None);
                false
            },
        };
        let ok = fits && copy_entry(&mut writer, archive, index);
        if !ok {
            proof {
                if all_taken(all) {
                    lemma_taken_so_far(all, j as int);
                }
            }
            return None;
        }
        proof {
            let next = all.take(j + 1);
            assert(next.drop_last() =~= all.take(j as int));
            assert(next.last() == all[j as int]);
            assert(written_entries(writer) =~= next);
        }
        j += 1;
    }
    let mut k: usize = 0;
    while k < plan.files.len()
        invariant
            k <= plan.files.len(),
            archive_source(*archive) == source,
            source == archive_source(*old(archive)),
            copied == copied_entries(source, indices_view(kept@)),
            copied.len() == kept@.len(),
            all == copied + stored_entries(plan@),
            written_entries(writer) == all.take(kept@.len() + k as int),
            all_taken(all.take(kept@.len() + k as int)),
        decreases plan.files.len() - k,
    {
        assert(all[kept@.len() + k] == (WrittenEntry::Stored {
            path: plan.files@[k as int].0@,
            data: plan.files@[k as int].1@,
        }));
        let path = plan.files[k].0.as_str();
        let ok = fits_as_name(path) && store_entry(&mut writer, path, plan.files[k].1.as_slice());
        if !ok {
            proof {
                if all_taken(all) {
                    lemma_taken_so_far(all, kept@.len() + k);
                }
            }
            return None;
        }
        proof {
            let next = all.take(kept@.len() + k as int + 1);
            assert(next.drop_last() =~= all.take(kept@.len() + k as int));
            assert(next.last() == all[kept@.len() + k]);
            assert(written_entries(writer) =~= next);
        }
        k += 1;
    }
    assert(all.take(kept@.len() + plan.files@.len() as int) =~= all);
    finish_archive(writer)
}

/// What rewriting an archive comes to.
pub enum Outcome {
    /// It fails for this reason.
    Fails(InjectionError),
    /// The archive stays as it is, byte for byte.
    Unchanged,
    /// A new archive with these entries is written.
    Rewritten(Seq<WrittenEntry>),
}

/// What rewriting the archive in `source`, whose entries have the names
/// `names`, by `plan` comes to.
pub open spec fn rewrite_outcome(
    source: Seq<u8>,
    names: Seq<Option<Seq<char>>>,
    plan: Seq<(Seq<char>, Seq<u8>)>,
) -> Outcome {
    if plan.len() == 0 {
        Outcome::Unchanged
    } else if exists|i: int| 0 <= i < names.len() && names[i] is None {
        Outcome::Fails(InjectionError::ReadEntry)
    } else {
        Outcome::Rewritten(rewritten_entries(source, names, plan))
    }
}

/// The result `r` agrees with `outcome` for the source `source`: the stated
/// failure, the source itself, or the archive that comes of writing the
/// stated entries, and a failure where they cannot be written.
pub open spec fn agrees(
    r: Result<Vec<u8>, InjectionError>,
    outcome: Outcome,
    source: Seq<u8>,
) -> bool {
    match outcome {
        Outcome::Fails(e) => r == Err::<Vec<u8>, InjectionError>(e),
        Outcome::Unchanged => r matches Ok(bytes) && bytes@ == source,
        Outcome::Rewritten(entries) => match written(entries) {
            Some(image) => r matches Ok(bytes) && bytes@ == image,
            None => r == Err::<Vec<u8>, InjectionError>(InjectionError::WriteArchive),
        },
    }
}

/// Rewrites an opened archive by `plan`.
pub(crate) fn rewrite_opened(
    archive: &mut SourceArchive<'_>,
    ipa_data: &[u8],
    names: &Vec<Option<String>>,
    plan: &InjectionPlan,
) -> (r: Result<Vec<u8>, InjectionError>)
    requires
        archive_source(*old(archive)) == ipa_data@,
        names_view(names@) == zip_names(ipa_data@),
    ensures
        agrees(r, rewrite_outcome(ipa_data@, zip_names(ipa_data@), plan@), ipa_data@),
{
    if plan.files.len() == 0 {
        return Ok(vstd::slice::slice_to_vec(ipa_data));
    }
    let ghost view = names_view(names@);
    match kept_indices(names, plan) {
        None => {
            let ghost i = choose|i: int| 0 <= i < names@.len() && names@[i] is None;
            assert(view[i] is None);
            Err(InjectionError::ReadEntry)
        },
        Some(kept) => {
            assert forall|i: int| 0 <= i < view.len() implies view[i] is Some by {
                assert(names@[i] is Some);
            }
            match write_archive(archive, names, &kept, plan) {
                Some(bytes) => Ok(bytes),
                None => Err(InjectionError::WriteArchive),
            }
        },
    }
}

/// What rewriting the data `source` by `plan` comes to.
pub open spec fn archive_rewrite_outcome(source: Seq<u8>, plan: Seq<(Seq<char>, Seq<u8>)>) -> Outcome {
    if plan.len() == 0 {
        Outcome::Unchanged
    } else if !zip_readable(source) {
        Outcome::Fails(InjectionError::ReadArchive)
    } else {
        rewrite_outcome(source, zip_names(source), plan)
    }
}

/// Rewrites the archive in `ipa_data`: every entry whose path the plan does
/// not name is copied as it is, in order; every file of the plan is then
/// written uncompressed, taking the place of an entry of the same path.
/// With an empty plan the result is `ipa_data` itself.
pub fn rewrite_archive(ipa_data: &[u8], plan: &InjectionPlan) -> (r: Result<
    Vec<u8>,
    InjectionError,
>)
    ensures
        agrees(r, archive_rewrite_outcome(ipa_data@, plan@), ipa_data@),
        plan@.len() == 0 ==> (r matches Ok(bytes) && bytes@ == ipa_data@),
{
    if plan.files.len() == 0 {
        return Ok(vstd::slice::slice_to_vec(ipa_data));
    }
    match open_archive(ipa_data) {
        None => Err(InjectionError::ReadArchive),
        Some(mut archive) => {
            let names = read_names(&mut archive);
            rewrite_opened(&mut archive, ipa_data, &names, plan)
        },
    }
}

/// Rewriting replaces and does not duplicate: an entry whose name the plan
/// holds is not copied, every other entry is copied exactly once, and after
/// the copies stands, for each file of the plan in order, one uncompressed
/// entry with the file's path and contents.
pub proof fn lemma_rewrite_replaces(
    source: Seq<u8>,
    names: Seq<Option<Seq<char>>>,
    plan: Seq<(Seq<char>, Seq<u8>)>,
)
    ensures
        ({
            let kept = kept_below(names, plan, names.len() as int);
            let out = rewritten_entries(source, names, plan);
            &&& out.len() == kept.len() + plan.len()
            &&& forall|j: int|
                0 <= j < kept.len() ==> #[trigger] out[j] == (WrittenEntry::Copied {
                    source,
                    index: kept[j],
                })
            &&& forall|j: int, l: int| 0 <= j < l < kept.len() ==> kept[j] < kept[l]
            &&& forall|i: int|
                0 <= i < names.len() ==> (kept.contains(i) <==> !(names[i] matches Some(name)
                    && is_planned(plan, name)))
            &&& forall|k: int|
                0 <= k < plan.len() ==> #[trigger] out[kept.len() + k] == (WrittenEntry::Stored {
                    path: plan[k].0,
                    data: plan[k].1,
                })
        }),
{
    lemma_kept_below(names, plan, names.len() as int);
}

/// `kept_below` holds, in rising order, exactly the indices below `n` of the
/// entries that the plan leaves alone.
pub proof fn lemma_kept_below(
    names: Seq<Option<Seq<char>>>,
    plan: Seq<(Seq<char>, Seq<u8>)>,
    n: int,
)
    requires
        n <= names.len(),
    ensures
        forall|j: int|
            0 <= j < kept_below(names, plan, n).len() ==> 0 <= #[trigger] kept_below(
                names,
                plan,
                n,
            )[j] < n,
        forall|j: int, l: int|
            0 <= j < l < kept_below(names, plan, n).len() ==> kept_below(names, plan, n)[j]
                < kept_below(names, plan, n)[l],
        forall|i: int|
            0 <= i < n ==> (kept_below(names, plan, n).contains(i) <==> !(names[i] matches Some(
                name,
            ) && is_planned(plan, name))),
    decreases n,
{
    if n > 0 {
        lemma_kept_below(names, plan, n - 1);
        let before = kept_below(names, plan, n - 1);
        let now = kept_below(names, plan, n);
        let skip = names[n - 1] matches Some(name) && is_planned(plan, name);
        if skip {
            assert(now == before);
            assert(!now.contains(n - 1)) by {
                if now.contains(n - 1) {
                    let j = choose|j: int| 0 <= j < now.len() && now[j] == n - 1;
                    assert(before[j] < n - 1);
                }
            }
        } else {
            assert(now == before.push(n - 1));
            assert(now[before.len() as int] == n - 1);
            assert forall|i: int| 0 <= i < n - 1 implies (now.contains(i) <==> before.contains(
                i,
            )) by {
                if before.contains(i) {
                    let j = choose|j: int| 0 <= j < before.len() && before[j] == i;
                    assert(now[j] == i);
                }
                if now.contains(i) {
                    let j = choose|j: int| 0 <= j < now.len() && now[j] == i;
                    assert(j < before.len());
                    assert(before[j] == i);
                }
            }
        }
    }
}

} // verus!
