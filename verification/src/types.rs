//! The data model: catalog items, signing blobs, download tasks and what of
//! a task is shown to clients.

use vstd::prelude::*;

verus! {

/// A catalog item, as supplied by the client. It is carried through
/// unchanged. The two fractional numbers are held as the bits of their
/// IEEE 754 double-precision form.
#[derive(Debug, Clone)]
pub struct Software {
    pub id: i64,
    pub bundle_id: String,
    pub name: String,
    pub version: String,
    pub price_bits: Option<u64>,
    pub artist_name: String,
    pub seller_name: String,
    pub description: String,
    pub average_user_rating_bits: u64,
    pub user_rating_count: i64,
    pub artwork_url: String,
    pub screenshot_urls: Vec<String>,
    pub minimum_os_version: String,
    pub file_size_bytes: Option<String>,
    pub release_date: String,
    pub release_notes: Option<String>,
    pub formatted_price: Option<String>,
    pub primary_genre_name: String,
}

/// A [`Software`] as mathematical values.
pub struct SoftwareView {
    pub id: i64,
    pub bundle_id: Seq<char>,
    pub name: Seq<char>,
    pub version: Seq<char>,
    pub price_bits: Option<u64>,
    pub artist_name: Seq<char>,
    pub seller_name: Seq<char>,
    pub description: Seq<char>,
    pub average_user_rating_bits: u64,
    pub user_rating_count: i64,
    pub artwork_url: Seq<char>,
    pub screenshot_urls: Seq<Seq<char>>,
    pub minimum_os_version: Seq<char>,
    pub file_size_bytes: Option<Seq<char>>,
    pub release_date: Seq<char>,
    pub release_notes: Option<Seq<char>>,
    pub formatted_price: Option<Seq<char>>,
    pub primary_genre_name: Seq<char>,
}

/// The characters of an optional string.
pub open spec fn opt_view(s: Option<String>) -> Option<Seq<char>> {
    match s {
        Some(s) => Some(s@),
        None => None,
    }
}

/// The characters of each string of a list.
pub open spec fn strs_view(v: Seq<String>) -> Seq<Seq<char>> {
    Seq::new(v.len(), |i: int| v[i]@)
}

/// A copy of an optional string.
pub fn copy_opt(s: &Option<String>) -> (r: Option<String>)
    ensures
        opt_view(r) == opt_view(*s),
{
    match s {
        Some(s) => Some(s.clone()),
        None => None,
    }
}

/// A copy of a list of strings.
pub fn copy_strs(v: &Vec<String>) -> (r: Vec<String>)
    ensures
        strs_view(r@) == strs_view(v@),
{
    let mut r: Vec<String> = Vec::new();
    let mut i: usize = 0;
    while i < v.len()
        invariant
            i <= v.len(),
            r@.len() == i,
            forall|k: int| 0 <= k < i ==> (#[trigger] r@[k])@ == v@[k]@,
        decreases v.len() - i,
    {
        r.push(v[i].clone());
        i += 1;
    }
    assert(strs_view(r@) =~= strs_view(v@));
    r
}

impl View for Software {
    type V = SoftwareView;

    open spec fn view(&self) -> SoftwareView {
        SoftwareView {
            id: self.id,
            bundle_id: self.bundle_id@,
            name: self.name@,
            version: self.version@,
            price_bits: self.price_bits,
            artist_name: self.artist_name@,
            seller_name: self.seller_name@,
            description: self.description@,
            average_user_rating_bits: self.average_user_rating_bits,
            user_rating_count: self.user_rating_count,
            artwork_url: self.artwork_url@,
            screenshot_urls: strs_view(self.screenshot_urls@),
            minimum_os_version: self.minimum_os_version@,
            file_size_bytes: opt_view(self.file_size_bytes),
            release_date: self.release_date@,
            release_notes: opt_view(self.release_notes),
            formatted_price: opt_view(self.formatted_price),
            primary_genre_name: self.primary_genre_name@,
        }
    }
}

impl Software {
    /// A copy with the same contents.
    pub fn duplicate(&self) -> (r: Software)
        ensures
            r@ == self@,
    {
        Software {
            id: self.id,
            bundle_id: self.bundle_id.clone(),
            name: self.name.clone(),
            version: self.version.clone(),
            price_bits: self.price_bits,
            artist_name: self.artist_name.clone(),
            seller_name: self.seller_name.clone(),
            description: self.description.clone(),
            average_user_rating_bits: self.average_user_rating_bits,
            user_rating_count: self.user_rating_count,
            artwork_url: self.artwork_url.clone(),
            screenshot_urls: copy_strs(&self.screenshot_urls),
            minimum_os_version: self.minimum_os_version.clone(),
            file_size_bytes: copy_opt(&self.file_size_bytes),
            release_date: self.release_date.clone(),
            release_notes: copy_opt(&self.release_notes),
            formatted_price: copy_opt(&self.formatted_price),
            primary_genre_name: self.primary_genre_name.clone(),
        }
    }
}

/// A signing blob: an identifier and the blob in base64.
#[derive(Debug, Clone)]
pub struct Sinf {
    pub id: i64,
    pub sinf: String,
}

/// The signing blobs of a list as `(identifier, base64 text)`.
pub open spec fn sinfs_view(v: Seq<Sinf>) -> Seq<(i64, Seq<char>)> {
    Seq::new(v.len(), |i: int| (v[i].id, v[i].sinf@))
}

/// Where a task stands in its lifecycle.
#[derive(Debug, Clone, Copy, PartialEq, Eq, Structural)]
pub enum TaskStatus {
    Pending,
    Downloading,
    Paused,
    Injecting,
    Completed,
    Failed,
}

impl TaskStatus {
    /// The task has come to its end: nothing more will be done for it.
    pub open spec fn terminal(self) -> bool {
        self == TaskStatus::Completed || self == TaskStatus::Failed
    }

    /// Whether the task has come to its end.
    pub fn is_terminal(&self) -> (b: bool)
        ensures
            b == self.terminal(),
    {
        matches!(self, TaskStatus::Completed | TaskStatus::Failed)
    }

    /// The lower-case name of the status.
    pub fn as_str(&self) -> (s: &'static str)
        ensures
            s@ == match self {
                TaskStatus::Pending => "pending"@,
                TaskStatus::Downloading => "downloading"@,
                TaskStatus::Paused => "paused"@,
                TaskStatus::Injecting => "injecting"@,
                TaskStatus::Completed => "completed"@,
                TaskStatus::Failed => "failed"@,
            },
    {
        match self {
            TaskStatus::Pending => "pending",
            TaskStatus::Downloading => "downloading",
            TaskStatus::Paused => "paused",
            TaskStatus::Injecting => "injecting",
            TaskStatus::Completed => "completed",
            TaskStatus::Failed => "failed",
        }
    }
}

/// A request to fetch a package and to put the signing blobs into it.
#[derive(Debug, Clone)]
pub struct DownloadTask {
    pub id: String,
    pub software: Software,
    pub account_hash: String,
    pub download_url: String,
    pub sinfs: Vec<Sinf>,
    pub itunes_metadata: Option<String>,
    pub status: TaskStatus,
    pub progress: u8,
    pub speed: String,
    pub error: Option<String>,
    pub file_path: Option<String>,
    pub created_at: String,
}

/// What of a task is shown to clients: neither the download URL, the signing
/// blobs, the metadata nor the storage key.
#[derive(Debug, Clone)]
pub struct SanitizedTask {
    pub id: String,
    pub software: Software,
    pub account_hash: String,
    pub status: TaskStatus,
    pub progress: u8,
    pub speed: String,
    pub error: Option<String>,
    pub has_file: Option<bool>,
    pub created_at: String,
}

/// A stored package, as listed to clients.
#[derive(Debug, Clone)]
pub struct PackageInfo {
    pub id: String,
    pub software: Software,
    pub account_hash: String,
    pub file_size: u64,
    pub created_at: String,
}

/// What a client sends to have a task created.
#[derive(Debug)]
pub struct CreateDownloadRequest {
    pub software: Software,
    pub account_hash: String,
    pub download_url: String,
    pub sinfs: Vec<Sinf>,
    pub itunes_metadata: Option<String>,
}

/// `shown` is what clients see of `task`: its identifier, catalog item,
/// account, status, progress, speed, error and time of creation, and
/// whether its package is stored.
pub open spec fn shows(shown: SanitizedTask, task: DownloadTask, file_exists: bool) -> bool {
    &&& shown.id@ == task.id@
    &&& shown.software@ == task.software@
    &&& shown.account_hash@ == task.account_hash@
    &&& shown.status == task.status
    &&& shown.progress == task.progress
    &&& shown.speed@ == task.speed@
    &&& opt_view(shown.error) == opt_view(task.error)
    &&& shown.has_file == (if file_exists {
        Some(true)
    } else {
        None
    })
    &&& shown.created_at@ == task.created_at@
}

impl DownloadTask {
    /// The task holds none of what it was created to fetch with: no download
    /// URL, no signing blob, no metadata.
    pub open spec fn holds_no_secrets(&self) -> bool {
        self.download_url@.len() == 0 && self.sinfs@.len() == 0 && self.itunes_metadata is None
    }

    /// A task that has come to its end holds no secrets, and a completed one
    /// stands at 100 percent.
    pub open spec fn well_formed(&self) -> bool {
        &&& self.progress <= 100
        &&& self.status.terminal() ==> self.holds_no_secrets()
        &&& self.status == TaskStatus::Completed ==> self.progress == 100
    }

    /// Whether the task is well formed.
    pub fn is_well_formed(&self) -> (b: bool)
        ensures
            b == self.well_formed(),
    {
        let no_secrets = self.download_url.as_str().is_empty() && self.sinfs.len() == 0
            && self.itunes_metadata.is_none();
        self.progress <= 100 && (!self.status.is_terminal() || no_secrets) && (self.status
            != TaskStatus::Completed || self.progress == 100)
    }

    /// What clients get to see of the task. `file_exists` says whether the
    /// finished package is in storage.
    pub fn sanitize(&self, file_exists: bool) -> (r: SanitizedTask)
        ensures
            shows(r, *self, file_exists),
    {
        SanitizedTask {
            id: self.id.clone(),
            software: self.software.duplicate(),
            account_hash: self.account_hash.clone(),
            status: self.status,
            progress: self.progress,
            speed: self.speed.clone(),
            error: copy_opt(&self.error),
            has_file: if file_exists {
                Some(true)
            } else {
                None
            },
            created_at: self.created_at.clone(),
        }
    }
}

} // verus!
