//! Injection planning: which archive entries to add or replace, given the
//! bundle name, where the signing-blob paths come from, the blobs themselves
//! and optional metadata; and the recognition of the archive entries that the
//! plan is derived from.

use crate::text;
use crate::types::opt_view;
use vstd::prelude::*;
use vstd::slice::slice_to_vec;
use vstd::string::StringExecFns;

verus! {

/// The files to add to or replace in an archive: `(archive path, contents)`,
/// in the order in which they are written.
#[derive(Debug, Clone)]
pub struct InjectionPlan {
    pub files: Vec<(String, Vec<u8>)>,
}

impl View for InjectionPlan {
    type V = Seq<(Seq<char>, Seq<u8>)>;

    open spec fn view(&self) -> Seq<(Seq<char>, Seq<u8>)> {
        Seq::new(self.files@.len(), |i: int| (self.files@[i].0@, self.files@[i].1@))
    }
}

/// Where the paths of the signing blobs come from.
#[derive(Debug)]
pub enum InjectionSource {
    /// The `SinfPaths` of the bundle's `Manifest.plist`, relative to the bundle.
    Manifest { sinf_paths: Vec<String> },
    /// The `CFBundleExecutable` of the bundle's `Info.plist`.
    Info { bundle_executable: String },
}

/// An [`InjectionSource`] as mathematical values.
pub enum SourceView {
    Manifest { sinf_paths: Seq<Seq<char>> },
    Info { bundle_executable: Seq<char> },
}

impl View for InjectionSource {
    type V = SourceView;

    open spec fn view(&self) -> SourceView {
        match self {
            InjectionSource::Manifest { sinf_paths } => SourceView::Manifest {
                sinf_paths: Seq::new(sinf_paths@.len(), |i: int| sinf_paths@[i]@),
            },
            InjectionSource::Info { bundle_executable } => SourceView::Info {
                bundle_executable: bundle_executable@,
            },
        }
    }
}

/// The archive path of a file `rel` inside the bundle `bundle`.
pub open spec fn bundle_path(bundle: Seq<char>, rel: Seq<char>) -> Seq<char> {
    "Payload/"@ + bundle + ".app/"@ + rel
}

/// The archive path of the signing blob of the executable `exec` in `bundle`.
pub open spec fn executable_sinf_path(bundle: Seq<char>, exec: Seq<char>) -> Seq<char> {
    "Payload/"@ + bundle + ".app/SC_Info/"@ + exec + ".sinf"@
}

/// The blobs of a list of `(identifier, blob)` pairs.
pub open spec fn blobs_of(sinfs: Seq<(i64, Vec<u8>)>) -> Seq<Seq<u8>> {
    Seq::new(sinfs.len(), |i: int| sinfs[i].1@)
}

/// The signing-blob files of a plan: paths and blobs paired in order, as many
/// as the shorter list has, or the one file of the first blob at the
/// executable's path.
pub open spec fn sinf_files(bundle: Seq<char>, source: SourceView, blobs: Seq<Seq<u8>>) -> Seq<
    (Seq<char>, Seq<u8>),
> {
    match source {
        SourceView::Manifest { sinf_paths } => Seq::new(
            if sinf_paths.len() <= blobs.len() {
                sinf_paths.len()
            } else {
                blobs.len()
            },
            |i: int| (bundle_path(bundle, sinf_paths[i]), blobs[i]),
        ),
        SourceView::Info { bundle_executable } => if blobs.len() > 0 {
            seq![(executable_sinf_path(bundle, bundle_executable), blobs[0])]
        } else {
            Seq::empty()
        },
    }
}

/// The metadata file of a plan, if metadata is given.
pub open spec fn metadata_files(metadata: Option<Seq<u8>>) -> Seq<(Seq<char>, Seq<u8>)> {
    match metadata {
        Some(bytes) => seq![("iTunesMetadata.plist"@, bytes)],
        None => Seq::empty(),
    }
}

/// The files of the plan for the given inputs: the signing-blob files, then
/// the metadata file.
pub open spec fn planned_files(
    bundle: Seq<char>,
    source: SourceView,
    blobs: Seq<Seq<u8>>,
    metadata: Option<Seq<u8>>,
) -> Seq<(Seq<char>, Seq<u8>)> {
    sinf_files(bundle, source, blobs) + metadata_files(metadata)
}

/// The view of an optional byte slice.
pub open spec fn opt_bytes(b: Option<&[u8]>) -> Option<Seq<u8>> {
    match b {
        Some(s) => Some(s@),
        None => None,
    }
}

/// Computes which files to add to or replace in the archive. Nothing is read
/// or written.
pub fn plan_injection(
    bundle_name: &str,
    source: &InjectionSource,
    sinfs: &[(i64, Vec<u8>)],
    itunes_metadata_binary: Option<&[u8]>,
) -> (plan: InjectionPlan)
    ensures
        plan@ == planned_files(
            bundle_name@,
            source@,
            blobs_of(sinfs@),
            opt_bytes(itunes_metadata_binary),
        ),
{
    let mut files: Vec<(String, Vec<u8>)> = Vec::new();
    let ghost blobs = blobs_of(sinfs@);
    let ghost want = sinf_files(bundle_name@, source@, blobs);
    match source {
        InjectionSource::Manifest { sinf_paths } => {
            let mut i: usize = 0;
            while i < sinf_paths.len() && i < sinfs.len()
                invariant
                    i <= sinf_paths.len(),
                    i <= sinfs.len(),
                    source@ == (SourceView::Manifest {
                        sinf_paths: Seq::new(sinf_paths@.len(), |k: int| sinf_paths@[k]@),
                    }),
                    blobs == blobs_of(sinfs@),
                    want == sinf_files(bundle_name@, source@, blobs),
                    files@.len() == i,
                    forall|k: int|
                        0 <= k < i ==> (#[trigger] files@[k]).0@ == want[k].0 && files@[k].1@
                            == want[k].1,
                decreases sinf_paths.len() - i,
            {
                let mut full_path = String::from_str("Payload/");
                full_path.append(bundle_name);
                full_path.append(".app/");
                full_path.append(sinf_paths[i].as_str());
                files.push((full_path, sinfs[i].1.clone()));
                i += 1;
            }
        },
        InjectionSource::Info { bundle_executable } => {
            if sinfs.len() > 0 {
                let mut sinf_path = String::from_str("Payload/");
                sinf_path.append(bundle_name);
                sinf_path.append(".app/SC_Info/");
                sinf_path.append(bundle_executable.as_str());
                sinf_path.append(".sinf");
                files.push((sinf_path, sinfs[0].1.clone()));
            }
        },
    }
    assert(files@.len() == want.len());
    if let Some(metadata) = itunes_metadata_binary {
        files.push((String::from_str("iTunesMetadata.plist"), slice_to_vec(metadata)));
    }
    let plan = InjectionPlan { files };
    assert(plan@ =~= planned_files(
        bundle_name@,
        source@,
        blobs,
        opt_bytes(itunes_metadata_binary),
    ));
    plan
}

/// With fewer blobs than manifest paths, the plan holds exactly one file per
/// blob: the first paths paired with the blobs in order, before the metadata
/// file if there is one.
pub proof fn lemma_manifest_plan_pairs_in_order(
    bundle: Seq<char>,
    sinf_paths: Seq<Seq<char>>,
    blobs: Seq<Seq<u8>>,
    metadata: Option<Seq<u8>>,
)
    requires
        blobs.len() < sinf_paths.len(),
    ensures
        sinf_files(bundle, SourceView::Manifest { sinf_paths }, blobs).len() == blobs.len(),
        planned_files(bundle, SourceView::Manifest { sinf_paths }, blobs, None).len()
            == blobs.len(),
        planned_files(bundle, SourceView::Manifest { sinf_paths }, blobs, metadata).len()
            == blobs.len() + metadata_files(metadata).len(),
        forall|i: int|
            0 <= i < blobs.len() ==> #[trigger] planned_files(
                bundle,
                SourceView::Manifest { sinf_paths },
                blobs,
                metadata,
            )[i] == (bundle_path(bundle, sinf_paths[i]), blobs[i]),
{
}

/// With an executable as the source and at least one blob, the signing-blob
/// part of the plan is the one file at the executable's path, holding the
/// first blob; the other blobs are not used.
pub proof fn lemma_info_plan_uses_first_blob(
    bundle: Seq<char>,
    bundle_executable: Seq<char>,
    blobs: Seq<Seq<u8>>,
)
    requires
        blobs.len() > 0,
    ensures
        planned_files(bundle, SourceView::Info { bundle_executable }, blobs, None) == seq![
            (executable_sinf_path(bundle, bundle_executable), blobs[0]),
        ],
        planned_files(bundle, SourceView::Info { bundle_executable }, blobs, None)
            == planned_files(
            bundle,
            SourceView::Info { bundle_executable },
            seq![blobs[0]],
            None,
        ),
{
    assert(planned_files(bundle, SourceView::Info { bundle_executable }, blobs, None) =~= seq![
        (executable_sinf_path(bundle, bundle_executable), blobs[0]),
    ]);
    assert(planned_files(bundle, SourceView::Info { bundle_executable }, seq![blobs[0]], None)
        =~= seq![(executable_sinf_path(bundle, bundle_executable), blobs[0])]);
}

/// Without blobs a plan holds no signing-blob file, whatever the source: it
/// is the metadata file alone, and empty where no metadata is given.
pub proof fn lemma_no_blobs_no_sinf_files(
    bundle: Seq<char>,
    source: SourceView,
    metadata: Option<Seq<u8>>,
)
    ensures
        sinf_files(bundle, source, Seq::empty()).len() == 0,
        planned_files(bundle, source, Seq::empty(), metadata) == metadata_files(metadata),
        planned_files(bundle, source, Seq::empty(), None).len() == 0,
{
    assert(planned_files(bundle, source, Seq::empty(), metadata) =~= metadata_files(metadata));
}

/// The entry is the descriptor `Info.plist` of an application bundle that is
/// not under a `Watch` directory.
pub open spec fn is_info_entry(path: Seq<char>) -> bool {
    text::contains(path, ".app/Info.plist"@) && !text::contains(path, "/Watch/"@)
}

/// The entry is the `SC_Info/Manifest.plist` of an application bundle.
pub open spec fn is_manifest_entry(path: Seq<char>) -> bool {
    text::has_suffix(path, ".app/SC_Info/Manifest.plist"@)
}

/// A path component ends just before position `e`, and its last characters
/// are `.app`.
pub open spec fn bundle_component_end(path: Seq<char>, e: int) -> bool {
    text::occurs_at(path, ".app"@, e - 4) && (e == path.len() || path[e] == '/')
}

/// No path component that ends before `e` ends in `.app`, and the one that
/// ends at `e` does.
pub open spec fn first_bundle_component_end(path: Seq<char>, e: int) -> bool {
    bundle_component_end(path, e) && forall|k: int| k < e ==> !bundle_component_end(path, k)
}

/// Where the path component that holds position `i` begins.
pub open spec fn component_start(path: Seq<char>, i: int) -> int
    decreases i,
{
    if i <= 0 {
        0
    } else if path[i - 1] == '/' {
        i
    } else {
        component_start(path, i - 1)
    }
}

/// The bundle name that the entry `path` gives: its first path component
/// that ends in `.app`, without that ending; `None` unless the entry is a
/// bundle's `Info.plist` outside any `Watch` directory.
pub open spec fn bundle_name_of(path: Seq<char>) -> Option<Seq<char>> {
    if is_info_entry(path) {
        let e = choose|e: int| first_bundle_component_end(path, e);
        Some(path.subrange(component_start(path, e), e - 4))
    } else {
        None
    }
}

/// The bundle name of a descriptor entry is the part before `.app` of the
/// first path component that ends in `.app`, wherever that component ends.
pub proof fn lemma_bundle_name_at(path: Seq<char>, e: int)
    requires
        is_info_entry(path),
        first_bundle_component_end(path, e),
    ensures
        bundle_name_of(path) == Some(path.subrange(component_start(path, e), e - 4)),
{
    let chosen = choose|c: int| first_bundle_component_end(path, c);
    if chosen < e {
        assert(!bundle_component_end(path, chosen));
    }
    if e < chosen {
        assert(!bundle_component_end(path, e));
    }
}

/// The name of the application bundle that the entry belongs to: its first
/// path component that ends in `.app`, without that ending. `None` unless the
/// entry is the bundle's `Info.plist`, outside any `Watch` directory.
pub fn extract_bundle_name(entry_path: &str) -> (r: Option<String>)
    ensures
        r is Some <==> is_info_entry(entry_path@),
        opt_view(r) == bundle_name_of(entry_path@),
{
    let p = text::chars_of(entry_path);
    let watch = text::chars_of("/Watch/");
    let info = text::chars_of(".app/Info.plist");
    let app = text::chars_of(".app");
    if text::has_infix(&p, &watch) {
        return None;
    }
    let at = match text::find(&p, &info) {
        Some(at) => at,
        None => {
            return None;
        },
    };
    proof {
        reveal_strlit(".app");
        reveal_strlit(".app/Info.plist");
        // the component that ends where `Info.plist` begins ends in `.app`
        let seg = p@.subrange(at as int, at + 15);
        assert(p@[at + 4] == seg[4]);
        assert(p@.subrange(at as int, at + 4) =~= seg.subrange(0, 4));
        assert(seg.subrange(0, 4) =~= ".app"@);
        assert(bundle_component_end(p@, at + 4));
    }
    let mut start: usize = 0;
    let mut i: usize = 0;
    while i < p.len()
        invariant
            0 <= start <= i <= p.len(),
            start == component_start(p@, i as int),
            forall|k: int| start <= k < i ==> p@[k] != '/',
            forall|k: int| k < i ==> !bundle_component_end(p@, k),
            start == 0 || p@[start - 1] == '/',
            p@ == entry_path@,
            is_info_entry(entry_path@),
            app@ == ".app"@,
            i <= at + 4 < p.len(),
            bundle_component_end(p@, at + 4),
        decreases p.len() - i,
    {
        if p[i] == '/' {
            if i >= 4 && text::matches_at(&p, &app, i - 4) {
                proof {
                    reveal_strlit(".app");
                    let seg = p@.subrange(i - 4, i as int);
                    assert(start <= i - 4) by {
                        if start > i - 4 {
                            assert(seg[start - 1 - (i - 4)] == p@[start - 1]);
                        }
                    }
                    assert(first_bundle_component_end(p@, i as int));
                    lemma_bundle_name_at(p@, i as int);
                }
                let name = text::slice_of(&p, start, i - 4);
                return Some(text::string_of(&name));
            }
            start = i + 1;
        }
        i += 1;
    }
    None
}

/// Whether the entry is the `SC_Info/Manifest.plist` of an application bundle.
pub fn is_manifest_plist(entry_path: &str) -> (b: bool)
    ensures
        b == is_manifest_entry(entry_path@),
{
    let p = text::chars_of(entry_path);
    let suffix = text::chars_of(".app/SC_Info/Manifest.plist");
    text::ends_with(&p, &suffix)
}

/// Whether the entry is the `Info.plist` of an application bundle, outside
/// any `Watch` directory.
pub fn is_info_plist(entry_path: &str) -> (b: bool)
    ensures
        b == is_info_entry(entry_path@),
{
    let p = text::chars_of(entry_path);
    let info = text::chars_of(".app/Info.plist");
    let watch = text::chars_of("/Watch/");
    text::has_infix(&p, &info) && !text::has_infix(&p, &watch)
}

} // verus!
