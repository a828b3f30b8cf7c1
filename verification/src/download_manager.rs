//! The acquisition of a package, step by step: what to do next, given what
//! the last step came to. The caller does the work of each step (it writes
//! the task, fetches the package, stores it) and reports how it went.

use crate::download::{build_ipa_path, build_task_dir, cleanable, task_dir};
use crate::archive::InjectionError;
use crate::download::{fresh_task, iso_timestamp, new_task, new_task_with};
use crate::injection::{inject_and_report, injection_failure, patched_or_kept};
use crate::security::valid_segment;
use crate::security;
use crate::security::{fetchable, url_parts_of, validate_download_url};
use crate::types::{opt_view, sinfs_view, CreateDownloadRequest, DownloadTask, TaskStatus};
use vstd::prelude::*;
use vstd::string::StringExecFns;

verus! {

/// Why an acquisition failed.
#[derive(Debug, Clone, Copy, PartialEq, Eq, Structural)]
pub enum PipelineError {
    /// The URL of the task may not be fetched.
    InvalidUrl,
    /// No storage key can be made of the task's account, bundle and version.
    InvalidPath,
    /// The server answered with this status, which is none of 200 to 299.
    Http(u16),
    /// The fetch failed before any answer came.
    Network,
    /// A store could not be written.
    Storage,
    /// A report came that does not belong to the step that was asked for.
    Unexpected,
}

/// How far an acquisition has come.
#[derive(Debug, Clone, Copy, PartialEq, Eq, Structural)]
pub enum Stage {
    /// Nothing was done yet.
    Created,
    /// The task is being written as `Downloading`.
    SavingDownloading,
    /// The package is being fetched.
    Fetching,
    /// The task is being written as `Injecting`.
    SavingInjecting,
    /// The package is being stored.
    StoringBlob,
    /// The task is being written as `Completed`.
    SavingCompleted,
    /// The task is being written as `Failed`.
    SavingFailed,
    /// Nothing is left to do.
    Done,
}

/// What the caller reports.
#[derive(Debug)]
pub enum Event {
    /// The acquisition is to begin.
    Begin,
    /// The task was written.
    Persisted,
    /// The task could not be written.
    PersistFailed,
    /// The server answered.
    Fetched { status: u16, body: Vec<u8> },
    /// The fetch failed.
    FetchFailed,
    /// The package was stored.
    BlobStored,
    /// The package could not be stored.
    BlobFailed,
}

/// What the caller is to do next.
#[derive(Debug)]
pub enum Action {
    /// Write the task, as it stands now, to the metadata store.
    PersistTask,
    /// Fetch this URL.
    Fetch { url: String },
    /// Store these bytes under this key in the blob store. Where the
    /// injection was tried and failed, the bytes are the package as fetched
    /// and `injection_failure` says why, to be logged.
    StoreBlob { key: String, bytes: Vec<u8>, injection_failure: Option<InjectionError> },
    /// Stop: the acquisition ended like this.
    Finish(Result<(), PipelineError>),
}

/// An acquisition under way.
#[derive(Debug)]
pub struct Pipeline {
    /// The task, as it is to be written next.
    pub task: DownloadTask,
    /// How far the acquisition has come.
    pub stage: Stage,
    /// The fetched package, while it waits for the injection.
    pub body: Vec<u8>,
    /// The key under which the package is being stored.
    pub key: Option<String>,
    /// Why the acquisition failed, once it has.
    pub failure: Option<PipelineError>,
}

/// The storage key of the package of a task.
pub open spec fn storage_key_of(task: &DownloadTask) -> Seq<char> {
    task_dir(
        "packages"@,
        security::cleaned(task.account_hash@),
        security::cleaned(task.software.bundle_id@),
        security::cleaned(task.software.version@),
    ) + "/"@ + task.id@ + ".ipa"@
}

/// A storage key can be made of the task.
pub open spec fn has_storage_key(task: &DownloadTask) -> bool {
    cleanable(task.account_hash@) && cleanable(task.software.bundle_id@) && cleanable(
        task.software.version@,
    )
}

/// The key under which the package of the task is stored:
/// `packages/<account>/<bundle>/<version>/<task>.ipa`, the three segments
/// cleaned. `None` where one of them cannot be made a path segment.
pub fn storage_key(task: &DownloadTask) -> (r: Option<String>)
    ensures
        r is Some <==> has_storage_key(task),
        r matches Some(key) ==> key@ == storage_key_of(task),
{
    match build_task_dir(
        "packages",
        task.account_hash.as_str(),
        task.software.bundle_id.as_str(),
        task.software.version.as_str(),
    ) {
        Ok(dir) => Some(build_ipa_path(dir.as_str(), task.id.as_str())),
        Err(_) => None,
    }
}

/// `after` is `before` with another status and nothing else changed.
pub open spec fn only_status_changed(
    before: DownloadTask,
    after: DownloadTask,
    status: TaskStatus,
) -> bool {
    after == (DownloadTask { status, ..before })
}

/// `after` is `before` without its secrets and with another status, error,
/// progress and storage key: what identifies the task stays.
pub open spec fn same_task(before: DownloadTask, after: DownloadTask) -> bool {
    &&& after.id == before.id
    &&& after.software == before.software
    &&& after.account_hash == before.account_hash
    &&& after.speed == before.speed
    &&& after.created_at == before.created_at
}

/// `after` is `before` marked as failed: with the generic message, without
/// the secrets, and otherwise as it was.
pub open spec fn marked_failed(before: DownloadTask, after: DownloadTask) -> bool {
    &&& same_task(before, after)
    &&& after.status == TaskStatus::Failed
    &&& after.error matches Some(message) && message@ == "Download failed"@
    &&& after.holds_no_secrets()
    &&& after.progress == before.progress
    &&& after.file_path == before.file_path
}

/// `after` is `before` marked as completed with the package under `key`: at
/// 100 percent, without the secrets, and otherwise as it was.
pub open spec fn marked_completed(
    before: DownloadTask,
    after: DownloadTask,
    key: Seq<char>,
) -> bool {
    &&& same_task(before, after)
    &&& after.status == TaskStatus::Completed
    &&& after.progress == 100
    &&& after.holds_no_secrets()
    &&& after.error == before.error
    &&& after.file_path matches Some(path) && path@ == key
}

/// How many steps are left at most before the acquisition is done.
pub open spec fn steps_left(stage: Stage) -> nat {
    match stage {
        Stage::Created => 7,
        Stage::SavingDownloading => 6,
        Stage::Fetching => 5,
        Stage::SavingInjecting => 4,
        Stage::StoringBlob => 3,
        Stage::SavingCompleted => 2,
        Stage::SavingFailed => 1,
        Stage::Done => 0,
    }
}

impl Pipeline {
    /// The acquisition is consistent: the task's status fits the stage, a
    /// task at its end holds no secrets, and a failure is recorded exactly
    /// where the task failed.
    pub open spec fn well_formed(&self) -> bool {
        &&& self.task.well_formed()
        &&& match self.stage {
            Stage::Created => self.task.status == TaskStatus::Pending || self.task.status
                == TaskStatus::Paused,
            Stage::SavingDownloading | Stage::Fetching => self.task.status
                == TaskStatus::Downloading,
            Stage::SavingInjecting => self.task.status == TaskStatus::Injecting,
            Stage::StoringBlob => (self.task.status == TaskStatus::Downloading
                || self.task.status == TaskStatus::Injecting) && self.key is Some,
            Stage::SavingCompleted => self.task.status == TaskStatus::Completed,
            Stage::SavingFailed => self.task.status == TaskStatus::Failed,
            Stage::Done => self.task.status.terminal(),
        }
        &&& self.failure is Some <==> self.task.status == TaskStatus::Failed
        &&& self.task.status == TaskStatus::Completed ==> self.task.file_path is Some
    }

    /// The acquisition has ended.
    pub open spec fn done(&self) -> bool {
        self.stage == Stage::Done
    }

    /// The outcome of an acquisition that has ended.
    pub open spec fn outcome(&self) -> Result<(), PipelineError> {
        match self.failure {
            Some(e) => Err(e),
            None => Ok(()),
        }
    }

    /// An acquisition for a task that is pending or paused, with nothing
    /// done yet.
    pub fn new(task: DownloadTask) -> (p: Pipeline)
        ensures
            p.task == task,
            p.stage == Stage::Created,
            p.body@.len() == 0,
            p.key is None,
            p.failure is None,
            task.well_formed() && (task.status == TaskStatus::Pending || task.status
                == TaskStatus::Paused) ==> p.well_formed(),
    {
        Pipeline { task, stage: Stage::Created, body: Vec::new(), key: None, failure: None }
    }

    /// Whether the acquisition is consistent.
    pub fn is_well_formed(&self) -> (b: bool)
        ensures
            b == self.well_formed(),
    {
        let fits = match self.stage {
            Stage::Created => self.task.status == TaskStatus::Pending || self.task.status
                == TaskStatus::Paused,
            Stage::SavingDownloading | Stage::Fetching => self.task.status
                == TaskStatus::Downloading,
            Stage::SavingInjecting => self.task.status == TaskStatus::Injecting,
            Stage::StoringBlob => (self.task.status == TaskStatus::Downloading
                || self.task.status == TaskStatus::Injecting) && self.key.is_some(),
            Stage::SavingCompleted => self.task.status == TaskStatus::Completed,
            Stage::SavingFailed => self.task.status == TaskStatus::Failed,
            Stage::Done => self.task.status.is_terminal(),
        };
        self.task.is_well_formed() && fits && (self.failure.is_some() == (self.task.status
            == TaskStatus::Failed)) && (self.task.status != TaskStatus::Completed
            || self.task.file_path.is_some())
    }

    /// Whether the acquisition has ended.
    pub fn is_done(&self) -> (b: bool)
        ensures
            b == self.done(),
    {
        matches!(self.stage, Stage::Done)
    }

    /// Marks the task as failed and asks for it to be written.
    fn fail(&mut self, error: PipelineError) -> (action: Action)
        requires
            old(self).stage != Stage::Done,
            old(self).stage != Stage::SavingFailed,
            old(self).task.progress <= 100,
        ensures
            failing(*old(self), *final(self), action, error),
            final(self).well_formed(),
    {
        self.task.status = TaskStatus::Failed;
        self.task.error = Some(String::from_str("Download failed"));
        self.task.download_url = String::new();
        self.task.sinfs = Vec::new();
        self.task.itunes_metadata = None;
        self.body = Vec::new();
        self.failure = Some(error);
        self.stage = Stage::SavingFailed;
        Action::PersistTask
    }

    /// Asks for the package `bytes` to be stored under the task's key.
    fn store(&mut self, bytes: Vec<u8>, injection_failure: Option<InjectionError>) -> (action:
        Action)
        requires
            old(self).well_formed(),
            old(self).stage == Stage::Fetching || old(self).stage == Stage::SavingInjecting,
        ensures
            final(self).well_formed(),
            storing(*old(self), *final(self), action, bytes@, injection_failure),
    {
        match storage_key(&self.task) {
            None => self.fail(PipelineError::InvalidPath),
            Some(key) => {
                self.key = Some(key.clone());
                self.body = Vec::new();
                self.stage = Stage::StoringBlob;
                Action::StoreBlob { key, bytes, injection_failure }
            },
        }
    }

    /// Takes the report of the last step and says what to do next.
    ///
    /// The steps follow one another like this: write the task as
    /// `Downloading`; fetch the package; if the task has signing blobs,
    /// write it as `Injecting` and put the blobs into the package, keeping
    /// the package as fetched where that fails; store the package; write the
    /// task as `Completed`, at 100 percent and without its secrets. A URL
    /// that may not be fetched, a status that is none of 200 to 299, a fetch
    /// that fails and a store that cannot be written end the acquisition: the
    /// task is
    /// marked `Failed`, written once more, whatever comes of that, and the
    /// failure is handed out.
    pub fn step(&mut self, event: Event) -> (action: Action)
        requires
            old(self).well_formed(),
        ensures
            final(self).well_formed(),
            transition(*old(self), event, *final(self), action),
            !old(self).done() ==> steps_left(final(self).stage) < steps_left(old(self).stage),
            same_task(old(self).task, final(self).task),
    {
        match self.stage {
            Stage::Done => Action::Finish(
                match self.failure {
                    Some(e) => Err(e),
                    None => Ok(()),
                },
            ),
            Stage::SavingFailed => {
                self.stage = Stage::Done;
                Action::Finish(
                    match self.failure {
                        Some(e) => Err(e),
                        None => Ok(()),
                    },
                )
            },
            Stage::Created => match event {
                Event::Begin => {
                    self.task.status = TaskStatus::Downloading;
                    self.stage = Stage::SavingDownloading;
                    Action::PersistTask
                },
                _ => self.fail(PipelineError::Unexpected),
            },
            Stage::SavingDownloading => match event {
                Event::Persisted => {
                    if validate_download_url(self.task.download_url.as_str()).is_ok() {
                        self.stage = Stage::Fetching;
                        Action::Fetch { url: self.task.download_url.clone() }
                    } else {
                        self.fail(PipelineError::InvalidUrl)
                    }
                },
                Event::PersistFailed => self.fail(PipelineError::Storage),
                _ => self.fail(PipelineError::Unexpected),
            },
            Stage::Fetching => match event {
                Event::Fetched { status, body } => {
                    if !is_success(status) {
                        self.fail(PipelineError::Http(status))
                    } else if self.task.sinfs.len() > 0 {
                        self.task.status = TaskStatus::Injecting;
                        self.body = body;
                        self.stage = Stage::SavingInjecting;
                        Action::PersistTask
                    } else {
                        self.store(body, None)
                    }
                },
                Event::FetchFailed => self.fail(PipelineError::Network),
                _ => self.fail(PipelineError::Unexpected),
            },
            Stage::SavingInjecting => match event {
                Event::Persisted => {
                    let mut body: Vec<u8> = Vec::new();
                    core::mem::swap(&mut self.body, &mut body);
                    let (patched, failure) = inject_and_report(
                        body,
                        self.task.sinfs.as_slice(),
                        match &self.task.itunes_metadata {
                            Some(text) => Some(text.as_str()),
                            None => None,
                        },
                    );
                    self.store(patched, failure)
                },
                Event::PersistFailed => self.fail(PipelineError::Storage),
                _ => self.fail(PipelineError::Unexpected),
            },
            Stage::StoringBlob => match event {
                Event::BlobStored => {
                    let mut key: Option<String> = None;
                    core::mem::swap(&mut self.key, &mut key);
                    self.task.file_path = key;
                    self.task.status = TaskStatus::Completed;
                    self.task.progress = 100;
                    self.task.download_url = String::new();
                    self.task.sinfs = Vec::new();
                    self.task.itunes_metadata = None;
                    self.stage = Stage::SavingCompleted;
                    Action::PersistTask
                },
                Event::BlobFailed => self.fail(PipelineError::Storage),
                _ => self.fail(PipelineError::Unexpected),
            },
            Stage::SavingCompleted => match event {
                Event::Persisted => {
                    self.stage = Stage::Done;
                    Action::Finish(Ok(()))
                },
                Event::PersistFailed => self.fail(PipelineError::Storage),
                _ => self.fail(PipelineError::Unexpected),
            },
        }
    }
}

/// The status of an answer is a success: one of 200 to 299.
pub open spec fn success_status(status: u16) -> bool {
    200 <= status <= 299
}

/// Whether the status of an answer is a success.
#[verifier::when_used_as_spec(success_status)]
pub fn is_success(status: u16) -> (b: bool)
    ensures
        b == success_status(status),
{
    200 <= status && status <= 299
}

/// `p` is the acquisition for `task` with nothing done yet.
pub open spec fn starts(p: Pipeline, task: DownloadTask) -> bool {
    &&& p.task == task
    &&& p.stage == Stage::Created
    &&& p.body@.len() == 0
    &&& p.key is None
    &&& p.failure is None
}

/// Makes the task for a request under the identifier `id` at the time
/// `created_at`, and the acquisition that is to be run for it. The request
/// is taken as it is: it is validated before.
pub fn create_task_with(req: CreateDownloadRequest, id: String, created_at: String) -> (p:
    Pipeline)
    ensures
        p.well_formed(),
        starts(p, p.task),
        p.task.id == id,
        p.task.created_at == created_at,
        fresh_task(p.task, req),
{
    Pipeline::new(new_task_with(req, id, created_at))
}

/// Makes the task for a request at the time `now_secs`, in seconds since
/// the beginning of 1970, and the acquisition that is to be run for it. The
/// identifier is random. The request is taken as it is: it is validated
/// before.
pub fn create_task(req: CreateDownloadRequest, now_secs: u64) -> (p: Pipeline)
    ensures
        p.well_formed(),
        starts(p, p.task),
        p.task.id@.len() == 36,
        p.task.created_at@ == iso_timestamp(now_secs as int),
        fresh_task(p.task, req),
{
    Pipeline::new(new_task(req, now_secs))
}

/// The acquisition `before` fails with `error`: the task is marked failed,
/// and it is to be written.
pub open spec fn failing(
    before: Pipeline,
    after: Pipeline,
    action: Action,
    error: PipelineError,
) -> bool {
    &&& marked_failed(before.task, after.task)
    &&& after.stage == Stage::SavingFailed
    &&& after.failure == Some(error)
    &&& action is PersistTask
}

/// The acquisition ends with its outcome.
pub open spec fn finishing(before: Pipeline, after: Pipeline, action: Action) -> bool {
    &&& after.task == before.task
    &&& after.failure == before.failure
    &&& after.stage == Stage::Done
    &&& action == Action::Finish(before.outcome())
}

/// The package `bytes` is to be stored under the key of the task, with the
/// failure of the injection to be logged if there was one; or the
/// acquisition fails for want of a key.
pub open spec fn storing(
    before: Pipeline,
    after: Pipeline,
    action: Action,
    bytes: Seq<u8>,
    failure: Option<InjectionError>,
) -> bool {
    if has_storage_key(&before.task) {
        &&& after.stage == Stage::StoringBlob
        &&& after.task == before.task
        &&& after.failure is None
        &&& action matches Action::StoreBlob { key, bytes: stored, injection_failure }
        &&& key@ == storage_key_of(&before.task)
        &&& stored@ == bytes
        &&& injection_failure == failure
        &&& after.key matches Some(kept) && kept@ == key@
    } else {
        failing(before, after, action, PipelineError::InvalidPath)
    }
}

/// What a step makes of the acquisition `before` on the report `event`: the
/// acquisition `after` and the action that is asked for.
pub open spec fn transition(before: Pipeline, event: Event, after: Pipeline, action: Action) -> bool {
    match before.stage {
        Stage::Done => after == before && action == Action::Finish(before.outcome()),
        Stage::SavingFailed => finishing(before, after, action),
        Stage::Created => match event {
            Event::Begin => {
                &&& only_status_changed(before.task, after.task, TaskStatus::Downloading)
                &&& after.stage == Stage::SavingDownloading
                &&& after.failure is None
                &&& action is PersistTask
            },
            _ => failing(before, after, action, PipelineError::Unexpected),
        },
        Stage::SavingDownloading => match event {
            Event::Persisted => if fetchable(url_parts_of(before.task.download_url@)) {
                &&& after.task == before.task
                &&& after.stage == Stage::Fetching
                &&& after.failure is None
                &&& action matches Action::Fetch { url }
                &&& url@ == before.task.download_url@
            } else {
                failing(before, after, action, PipelineError::InvalidUrl)
            },
            Event::PersistFailed => failing(before, after, action, PipelineError::Storage),
            _ => failing(before, after, action, PipelineError::Unexpected),
        },
        Stage::Fetching => match event {
            Event::Fetched { status, body } => if !success_status(status) {
                failing(before, after, action, PipelineError::Http(status))
            } else if before.task.sinfs@.len() > 0 {
                &&& only_status_changed(before.task, after.task, TaskStatus::Injecting)
                &&& after.stage == Stage::SavingInjecting
                &&& after.body == body
                &&& after.failure is None
                &&& action is PersistTask
            } else {
                storing(before, after, action, body@, None)
            },
            Event::FetchFailed => failing(before, after, action, PipelineError::Network),
            _ => failing(before, after, action, PipelineError::Unexpected),
        },
        Stage::SavingInjecting => match event {
            Event::Persisted => storing(
                before,
                after,
                action,
                patched_or_kept(
                    before.body@,
                    sinfs_view(before.task.sinfs@),
                    opt_view(before.task.itunes_metadata),
                ),
                injection_failure(
                    before.body@,
                    sinfs_view(before.task.sinfs@),
                    opt_view(before.task.itunes_metadata),
                ),
            ),
            Event::PersistFailed => failing(before, after, action, PipelineError::Storage),
            _ => failing(before, after, action, PipelineError::Unexpected),
        },
        Stage::StoringBlob => match event {
            Event::BlobStored => {
                &&& marked_completed(before.task, after.task, before.key->0@)
                &&& after.stage == Stage::SavingCompleted
                &&& after.failure is None
                &&& action is PersistTask
            },
            Event::BlobFailed => failing(before, after, action, PipelineError::Storage),
            _ => failing(before, after, action, PipelineError::Unexpected),
        },
        Stage::SavingCompleted => match event {
            Event::Persisted => finishing(before, after, action),
            Event::PersistFailed => failing(before, after, action, PipelineError::Storage),
            _ => failing(before, after, action, PipelineError::Unexpected),
        },
    }
}

/// Every step of an acquisition that is not done brings it nearer to its
/// end, and keeps it consistent. An acquisition is therefore done after
/// seven steps at most.
pub proof fn lemma_step_makes_progress(
    before: Pipeline,
    event: Event,
    after: Pipeline,
    action: Action,
)
    requires
        before.well_formed(),
        !before.done(),
        transition(before, event, after, action),
    ensures
        steps_left(after.stage) < steps_left(before.stage),
        steps_left(before.stage) <= 7,
        after.task.well_formed(),
        after.failure is Some <==> after.task.status == TaskStatus::Failed,
        after.done() ==> after.task.status.terminal(),
{
}

/// An acquisition that is done has a task that is completed or failed:
/// completed with its package stored where the outcome is a success, failed
/// where it is a failure. Either way the task holds no secrets.
pub proof fn lemma_done_is_terminal(p: Pipeline)
    requires
        p.well_formed(),
        p.done(),
    ensures
        p.task.status == TaskStatus::Completed || p.task.status == TaskStatus::Failed,
        p.outcome() is Ok <==> p.task.status == TaskStatus::Completed,
        p.task.status == TaskStatus::Completed ==> p.task.progress == 100 && p.task.file_path
            is Some,
        p.task.holds_no_secrets(),
{
}

/// The steps of an acquisition that meets no failure. For a task with
/// signing blobs whose URL may be fetched and whose storage key can be made,
/// and with every report a success, the task goes from pending or paused to
/// `Downloading`, to `Injecting` and to `Completed`; the caller is asked to
/// write the task, to fetch the URL, to write the task, to store the package
/// under the task's key, and to write the task; the acquisition ends in
/// success with the task at 100 percent, without its secrets, its package
/// under that key.
pub proof fn lemma_acquisition_completes(
    s0: Pipeline,
    s1: Pipeline,
    s2: Pipeline,
    s3: Pipeline,
    s4: Pipeline,
    s5: Pipeline,
    s6: Pipeline,
    do1: Action,
    do2: Action,
    do3: Action,
    do4: Action,
    do5: Action,
    do6: Action,
    status: u16,
    body: Vec<u8>,
)
    requires
        s0.well_formed(),
        s0.stage == Stage::Created,
        s0.task.sinfs@.len() > 0,
        success_status(status),
        transition(s0, Event::Begin, s1, do1),
        transition(s1, Event::Persisted, s2, do2),
        transition(s2, Event::Fetched { status, body }, s3, do3),
        transition(s3, Event::Persisted, s4, do4),
        transition(s4, Event::BlobStored, s5, do5),
        transition(s5, Event::Persisted, s6, do6),
    ensures
        fetchable(url_parts_of(s0.task.download_url@)) && has_storage_key(&s0.task) ==> {
            &&& s1.task.status == TaskStatus::Downloading && do1 is PersistTask
            &&& s2.task.status == TaskStatus::Downloading
            &&& do2 matches Action::Fetch { url } && url@ == s0.task.download_url@
            &&& s3.task.status == TaskStatus::Injecting && do3 is PersistTask
            &&& s4.task.status == TaskStatus::Injecting
            &&& do4 matches Action::StoreBlob { key, bytes, injection_failure } && key@
                == storage_key_of(&s0.task) && bytes@ == patched_or_kept(
                body@,
                sinfs_view(s0.task.sinfs@),
                opt_view(s0.task.itunes_metadata),
            ) && injection_failure == crate::injection::injection_failure(
                body@,
                sinfs_view(s0.task.sinfs@),
                opt_view(s0.task.itunes_metadata),
            )
            &&& s5.task.status == TaskStatus::Completed && do5 is PersistTask
            &&& s6.task == s5.task
            &&& s6.done() && do6 == Action::Finish(Ok(()))
            &&& s6.task.progress == 100
            &&& s6.task.holds_no_secrets()
            &&& s6.task.file_path matches Some(path) && path@ == storage_key_of(&s0.task)
            &&& same_task(s0.task, s6.task)
        },
{
    if fetchable(url_parts_of(s0.task.download_url@)) && has_storage_key(&s0.task) {
        assert(s1.task.download_url == s0.task.download_url);
        assert(s2.task == s1.task);
        assert(s3.task.sinfs == s0.task.sinfs);
        assert(storage_key_of(&s3.task) == storage_key_of(&s0.task));
        assert(has_storage_key(&s3.task));
    }
}

/// The storage key of a task whose account hash, bundle identifier and
/// version are valid path segments can be made, and holds them as they are:
/// `packages/<account>/<bundle>/<version>/<task>.ipa`.
pub proof fn lemma_valid_segments_give_key(task: DownloadTask)
    requires
        valid_segment(task.account_hash@),
        valid_segment(task.software.bundle_id@),
        valid_segment(task.software.version@),
    ensures
        has_storage_key(&task),
        storage_key_of(&task) == "packages"@ + "/"@ + task.account_hash@ + "/"@
            + task.software.bundle_id@ + "/"@ + task.software.version@ + "/"@ + task.id@
            + ".ipa"@,
{
    security::lemma_sanitize_idempotent(task.account_hash@);
    security::lemma_sanitize_idempotent(task.software.bundle_id@);
    security::lemma_sanitize_idempotent(task.software.version@);
}

/// The acquisition for a valid request completes where every report is a
/// success. For a request that validation lets pass (it has a signing blob,
/// its URL may be fetched, its account hash, bundle identifier and version
/// are path segments), the task is made `Pending`; it is written as
/// `Downloading`, then as `Injecting`, then as `Completed`, finishing at 100
/// percent, without its secrets and with its package stored under
/// `packages/<account>/<bundle>/<version>/<task>.ipa`; and the last task that
/// is written is the task that the acquisition ends with.
pub proof fn lemma_valid_request_completes(
    req: CreateDownloadRequest,
    s0: Pipeline,
    s1: Pipeline,
    s2: Pipeline,
    s3: Pipeline,
    s4: Pipeline,
    s5: Pipeline,
    s6: Pipeline,
    do1: Action,
    do2: Action,
    do3: Action,
    do4: Action,
    do5: Action,
    do6: Action,
    status: u16,
    body: Vec<u8>,
)
    requires
        s0.well_formed(),
        starts(s0, s0.task),
        fresh_task(s0.task, req),
        success_status(status),
        transition(s0, Event::Begin, s1, do1),
        transition(s1, Event::Persisted, s2, do2),
        transition(s2, Event::Fetched { status, body }, s3, do3),
        transition(s3, Event::Persisted, s4, do4),
        transition(s4, Event::BlobStored, s5, do5),
        transition(s5, Event::Persisted, s6, do6),
    ensures
        crate::download::request_valid(&req, url_parts_of(req.download_url@)) ==> {
            &&& s0.task.status == TaskStatus::Pending
            &&& s1.task.status == TaskStatus::Downloading && do1 is PersistTask
            &&& do2 matches Action::Fetch { url } && url@ == req.download_url@
            &&& s3.task.status == TaskStatus::Injecting && do3 is PersistTask
            &&& do4 matches Action::StoreBlob { key, bytes, injection_failure } && key@
                == storage_key_of(&s0.task)
            &&& s5.task.status == TaskStatus::Completed && s5.task.progress == 100 && do5
                is PersistTask
            &&& s6.task == s5.task
            &&& s6.done() && do6 == Action::Finish(Ok(()))
            &&& s6.task.holds_no_secrets()
            &&& s6.task.file_path matches Some(path) && path@ == storage_key_of(&s0.task)
            &&& storage_key_of(&s0.task) == "packages"@ + "/"@ + req.account_hash@ + "/"@
                + req.software.bundle_id@ + "/"@ + req.software.version@ + "/"@ + s0.task.id@
                + ".ipa"@
            &&& same_task(s0.task, s6.task)
        },
{
    if crate::download::request_valid(&req, url_parts_of(req.download_url@)) {
        lemma_valid_segments_give_key(s0.task);
        lemma_acquisition_completes(
            s0,
            s1,
            s2,
            s3,
            s4,
            s5,
            s6,
            do1,
            do2,
            do3,
            do4,
            do5,
            do6,
            status,
            body,
        );
    }
}

/// A fetch that is answered with a status that is none of 200 to 299 fails
/// the acquisition: the task is marked `Failed` with a message, nothing is
/// stored, no storage key is recorded, and after the task was written,
/// whatever came of that, the failure is handed out with the status.
pub proof fn lemma_bad_status_fails(
    s2: Pipeline,
    s3: Pipeline,
    s4: Pipeline,
    do3: Action,
    do4: Action,
    status: u16,
    body: Vec<u8>,
    report: Event,
)
    requires
        s2.well_formed(),
        s2.stage == Stage::Fetching,
        !success_status(status),
        transition(s2, Event::Fetched { status, body }, s3, do3),
        transition(s3, report, s4, do4),
    ensures
        s3.task.status == TaskStatus::Failed,
        s3.task.error matches Some(message) && message@.len() > 0,
        s3.task.holds_no_secrets(),
        s3.task.file_path == s2.task.file_path,
        do3 is PersistTask,
        s4.task == s3.task,
        s4.done(),
        do4 == Action::Finish(Err(PipelineError::Http(status))),
{
    reveal_strlit("Download failed");
}

} // verus!
