//! What the request handlers decide: who may see or change a task, which
//! changes are allowed, and what is answered. The handlers themselves read
//! the request, ask the stores and send the answer.

use crate::bag::{percent_encode, percent_encoded};
use crate::download::{
    fresh_task, iso_timestamp, request_fault, request_valid, validate_create_request,
};
use crate::download_manager::Pipeline;
use crate::download_manager::starts;
use crate::download_manager::Stage;
use crate::manifest::{build_manifest, manifest_text};
use crate::security::{
    download_url_fault, filename_chars, sanitize_filename, url_parts_of, validate_download_url,
    UrlParts,
};
use crate::text;
use crate::types::{
    opt_view, shows, strs_view, CreateDownloadRequest, DownloadTask, PackageInfo, SanitizedTask,
    TaskStatus,
};
use vstd::prelude::*;
use vstd::string::StringExecFns;
use vstd::string::StringSliceAdditionalSpecFns;

verus! {

/// The kind of a refusal, as an HTTP status.
#[derive(Debug, Clone, Copy, PartialEq, Eq, Structural)]
pub enum ErrorKind {
    /// 400: the request is malformed or asks for what is not allowed.
    BadRequest,
    /// 403: the task belongs to another account.
    Forbidden,
    /// 404: there is no such task or package.
    NotFound,
    /// 500: the stored data is not as it should be.
    Internal,
}

impl ErrorKind {
    /// The HTTP status of the kind.
    pub open spec fn code(self) -> u16 {
        match self {
            ErrorKind::BadRequest => 400,
            ErrorKind::Forbidden => 403,
            ErrorKind::NotFound => 404,
            ErrorKind::Internal => 500,
        }
    }

    /// The HTTP status of the kind.
    #[verifier::when_used_as_spec(code)]
    pub fn status_code(self) -> (c: u16)
        ensures
            c == self.code(),
    {
        match self {
            ErrorKind::BadRequest => 400,
            ErrorKind::Forbidden => 403,
            ErrorKind::NotFound => 404,
            ErrorKind::Internal => 500,
        }
    }
}

/// A refusal: its kind and what the client is told.
#[derive(Debug, Clone)]
pub struct ApiError {
    pub kind: ErrorKind,
    pub message: String,
}

/// What a request is about: the messages name it.
#[derive(Debug, Clone, Copy, PartialEq, Eq, Structural)]
pub enum Resource {
    Download,
    Package,
}

impl Resource {
    /// What is said where the account hash is missing or too short.
    pub open spec fn hash_message(self) -> Seq<char> {
        match self {
            Resource::Download => "Missing or invalid accountHash parameter"@,
            Resource::Package => "Missing or invalid accountHash"@,
        }
    }

    /// What is said where there is no such task.
    pub open spec fn missing_message(self) -> Seq<char> {
        match self {
            Resource::Download => "Download not found"@,
            Resource::Package => "Package not found"@,
        }
    }
}

/// The error `e` is of the kind `kind` and says `message`.
pub open spec fn refusal(e: ApiError, kind: ErrorKind, message: Seq<char>) -> bool {
    e.kind == kind && e.message@ == message
}

/// Makes a refusal.
fn refuse(kind: ErrorKind, message: &str) -> (e: ApiError)
    ensures
        refusal(e, kind, message@),
{
    ApiError { kind, message: String::from_str(message) }
}

/// Checks the account hash of a request before any store is asked: it must
/// be eight bytes long at least.
pub fn require_account_hash(account_hash: &str, resource: Resource) -> (r: Result<(), ApiError>)
    ensures
        r is Ok <==> account_hash.spec_bytes().len() >= 8,
        r matches Err(e) ==> refusal(e, ErrorKind::BadRequest, resource.hash_message()),
{
    if account_hash.as_bytes().len() < 8 {
        return Err(
            match resource {
                Resource::Download => refuse(
                    ErrorKind::BadRequest,
                    "Missing or invalid accountHash parameter",
                ),
                Resource::Package => refuse(ErrorKind::BadRequest, "Missing or invalid accountHash"),
            },
        );
    }
    Ok(())
}

/// Decides whether the account may have the task that the store returned:
/// the task must exist and belong to the account.
pub fn authorize(task: Option<DownloadTask>, account_hash: &str, resource: Resource) -> (r: Result<
    DownloadTask,
    ApiError,
>)
    ensures
        match task {
            None => r matches Err(e) && refusal(e, ErrorKind::NotFound, resource.missing_message()),
            Some(t) => if t.account_hash@ == account_hash@ {
                r == Ok::<DownloadTask, ApiError>(t)
            } else {
                r matches Err(e) && refusal(e, ErrorKind::Forbidden, "Access denied"@)
            },
        },
{
    let task = match task {
        Some(task) => task,
        None => {
            return Err(
                match resource {
                    Resource::Download => refuse(ErrorKind::NotFound, "Download not found"),
                    Resource::Package => refuse(ErrorKind::NotFound, "Package not found"),
                },
            );
        },
    };
    if !text::str_eq(task.account_hash.as_str(), account_hash) {
        return Err(refuse(ErrorKind::Forbidden, "Access denied"));
    }
    Ok(task)
}

/// What clients see of a task: the task without its secrets, and whether
/// its package is stored.
pub fn view_task(task: &DownloadTask) -> (r: SanitizedTask)
    ensures
        shows(r, *task, task.file_path is Some),
{
    task.sanitize(task.file_path.is_some())
}

/// What clients see of each task of a list, in order.
pub fn view_tasks(tasks: &Vec<DownloadTask>) -> (r: Vec<SanitizedTask>)
    ensures
        r@.len() == tasks@.len(),
        forall|i: int|
            0 <= i < r@.len() ==> shows(#[trigger] r@[i], tasks@[i], tasks@[i].file_path is Some),
{
    let mut out: Vec<SanitizedTask> = Vec::new();
    let mut i: usize = 0;
    while i < tasks.len()
        invariant
            i <= tasks.len(),
            out@.len() == i,
            forall|k: int|
                0 <= k < i ==> shows(#[trigger] out@[k], tasks@[k], tasks@[k].file_path is Some),
        decreases tasks.len() - i,
    {
        out.push(view_task(&tasks[i]));
        i += 1;
    }
    out
}

/// One event of a progress stream: `data: `, the data and an empty line.
pub fn progress_event(data: &str) -> (r: String)
    ensures
        r@ == "data: "@ + data@ + "\n\n"@,
{
    let mut r = String::from_str("data: ");
    r.append(data);
    r.append("\n\n");
    r
}

/// Pauses a task: allowed while it is `Downloading`, and at no other time.
/// The task that is returned is to be written; a fetch under way goes on.
pub fn pause_download(task: DownloadTask) -> (r: Result<DownloadTask, ApiError>)
    ensures
        r is Ok <==> task.status == TaskStatus::Downloading,
        r matches Ok(paused) ==> paused == (DownloadTask { status: TaskStatus::Paused, ..task }),
        r matches Err(e) ==> refusal(e, ErrorKind::BadRequest, "Cannot pause this download"@),
{
    if task.status != TaskStatus::Downloading {
        return Err(refuse(ErrorKind::BadRequest, "Cannot pause this download"));
    }
    let mut task = task;
    task.status = TaskStatus::Paused;
    Ok(task)
}

/// Resumes a task: allowed while it is `Paused`, and at no other time.
/// Nothing of an earlier fetch is kept: the acquisition that is returned
/// starts from the beginning, for the same task.
pub fn resume_download(task: DownloadTask) -> (r: Result<Pipeline, ApiError>)
    ensures
        r is Ok <==> task.status == TaskStatus::Paused,
        r matches Ok(p) ==> p.task == task && p.stage == Stage::Created && p.failure is None && (
        task.well_formed() ==> p.well_formed()),
        r matches Err(e) ==> refusal(e, ErrorKind::BadRequest, "Cannot resume this download"@),
{
    if task.status != TaskStatus::Paused {
        return Err(refuse(ErrorKind::BadRequest, "Cannot resume this download"));
    }
    Ok(Pipeline::new(task))
}

/// What is removed when a task or its package is deleted.
#[derive(Debug, Clone)]
pub struct Deletion {
    /// The key of the package in the blob store, if one is recorded. A
    /// failure to remove it is passed over.
    pub blob_key: Option<String>,
    /// The identifier of the task to remove from the metadata store, if the
    /// record goes too.
    pub task_id: Option<String>,
}

/// Deleting a download removes its package, if it has one, and its record.
pub fn delete_download(task: &DownloadTask) -> (d: Deletion)
    ensures
        opt_view(d.blob_key) == opt_view(task.file_path),
        opt_view(d.task_id) == Some(task.id@),
{
    Deletion { blob_key: crate::types::copy_opt(&task.file_path), task_id: Some(task.id.clone()) }
}

/// Deleting a package removes the package, if there is one; the record of
/// the task stays.
pub fn delete_package(task: &DownloadTask) -> (d: Deletion)
    ensures
        opt_view(d.blob_key) == opt_view(task.file_path),
        d.task_id is None,
{
    Deletion { blob_key: crate::types::copy_opt(&task.file_path), task_id: None }
}

/// The fields of `s` from position `i` on, `cur` being the part of the
/// field under way that was read already: fields are separated by commas,
/// and empty ones are left out.
pub open spec fn fields_from(s: Seq<char>, i: int, cur: Seq<char>) -> Seq<Seq<char>>
    decreases s.len() - i,
{
    let done = if cur.len() > 0 {
        seq![cur]
    } else {
        Seq::empty()
    };
    if i < 0 || i >= s.len() {
        done
    } else if s[i] == ',' {
        done + fields_from(s, i + 1, Seq::empty())
    } else {
        fields_from(s, i + 1, cur.push(s[i]))
    }
}

/// The account hashes of a list that is separated by commas; empty items
/// are left out.
pub fn split_hashes(param: &str) -> (r: Vec<String>)
    ensures
        strs_view(r@) == fields_from(param@, 0, Seq::empty()),
{
    let v = text::chars_of(param);
    let mut out: Vec<String> = Vec::new();
    let mut cur: Vec<char> = Vec::new();
    let mut i: usize = 0;
    while i < v.len()
        invariant
            i <= v.len(),
            fields_from(v@, 0, Seq::empty()) == strs_view(out@) + fields_from(v@, i as int, cur@),
        decreases v.len() - i,
    {
        let ghost before = strs_view(out@);
        let ghost field = cur@;
        let ghost all = fields_from(v@, 0, Seq::empty());
        assert(all == before + fields_from(v@, i as int, field));
        if v[i] == ',' {
            let ghost rest = fields_from(v@, i + 1, Seq::empty());
            if cur.len() > 0 {
                assert(fields_from(v@, i as int, field) == seq![field] + rest);
                out.push(text::string_of(&cur));
                assert(strs_view(out@) =~= before + seq![field]);
                cur = Vec::new();
                assert(all =~= strs_view(out@) + rest);
            } else {
                assert(fields_from(v@, i as int, field) == Seq::<Seq<char>>::empty() + rest);
                assert(all =~= strs_view(out@) + rest);
            }
            assert(cur@ =~= Seq::<char>::empty());
        } else {
            cur.push(v[i]);
            assert(cur@ == field.push(v@[i as int]));
            assert(fields_from(v@, i as int, field) == fields_from(v@, i + 1, cur@));
        }
        i += 1;
    }
    let ghost before = strs_view(out@);
    if cur.len() > 0 {
        out.push(text::string_of(&cur));
        assert(strs_view(out@) =~= before + seq![cur@]);
    }
    assert(strs_view(out@) =~= fields_from(v@, 0, Seq::empty()));
    out
}

/// The package of the task can be handed out: the task is completed and its
/// storage key is recorded.
pub open spec fn installable(task: &DownloadTask) -> bool {
    task.status == TaskStatus::Completed && task.file_path is Some
}

/// The key of the package of a task that can be handed out.
pub fn package_key(task: &DownloadTask) -> (r: Option<&String>)
    ensures
        r is Some <==> installable(task),
        r matches Some(key) ==> task.file_path == Some(*key),
{
    if task.status != TaskStatus::Completed {
        return None;
    }
    match &task.file_path {
        Some(key) => Some(key),
        None => None,
    }
}

/// The entry of a task in the list of packages: there is one where the task
/// is completed, its storage key is recorded and the store knows the size
/// of the package.
pub fn package_info(task: &DownloadTask, size: Option<u64>) -> (r: Option<PackageInfo>)
    ensures
        r is Some <==> installable(task) && size is Some,
        r matches Some(info) ==> info.id@ == task.id@ && info.software@ == task.software@
            && info.account_hash@ == task.account_hash@ && info.file_size == size->0
            && info.created_at@ == task.created_at@,
{
    if package_key(task).is_none() {
        return None;
    }
    match size {
        None => None,
        Some(file_size) => Some(
            PackageInfo {
                id: task.id.clone(),
                software: task.software.duplicate(),
                account_hash: task.account_hash.clone(),
                file_size,
                created_at: task.created_at.clone(),
            },
        ),
    }
}

/// Decides whether the package of the task that the store returned may be
/// sent to the account: the task must be completed and belong to the
/// account, and its storage key must be recorded. Returns the key.
pub fn authorize_package(task: Option<DownloadTask>, account_hash: &str) -> (r: Result<
    (DownloadTask, String),
    ApiError,
>)
    ensures
        match task {
            Some(t) => if t.status != TaskStatus::Completed {
                r matches Err(e) && refusal(e, ErrorKind::NotFound, "Package not found"@)
            } else if t.account_hash@ != account_hash@ {
                r matches Err(e) && refusal(e, ErrorKind::Forbidden, "Access denied"@)
            } else if t.file_path is None {
                r matches Err(e) && refusal(e, ErrorKind::Internal, "No file path"@)
            } else {
                r matches Ok(found) && found.0 == t && found.1@ == t.file_path->0@
            },
            None => r matches Err(e) && refusal(e, ErrorKind::NotFound, "Package not found"@),
        },
{
    let task = match task {
        Some(task) => task,
        None => {
            return Err(refuse(ErrorKind::NotFound, "Package not found"));
        },
    };
    if task.status != TaskStatus::Completed {
        return Err(refuse(ErrorKind::NotFound, "Package not found"));
    }
    if !text::str_eq(task.account_hash.as_str(), account_hash) {
        return Err(refuse(ErrorKind::Forbidden, "Access denied"));
    }
    let key = match &task.file_path {
        Some(key) => key.clone(),
        None => {
            return Err(refuse(ErrorKind::Internal, "No file path"));
        },
    };
    Ok((task, key))
}

/// The file name under which a package is sent: name and version, each
/// made safe, joined by an underscore, with the ending `.ipa`.
pub open spec fn package_filename(name: Seq<char>, version: Seq<char>) -> Seq<char> {
    filename_chars(name) + "_"@ + filename_chars(version) + ".ipa"@
}

/// The value of the `Content-Disposition` header for the package of a task.
pub fn attachment_header(task: &DownloadTask) -> (r: String)
    ensures
        r@ == "attachment; filename=\""@ + package_filename(
            task.software.name@,
            task.software.version@,
        ) + "\""@,
{
    let mut r = String::from_str("attachment; filename=\"");
    r.append(sanitize_filename(task.software.name.as_str()).as_str());
    r.append("_");
    r.append(sanitize_filename(task.software.version.as_str()).as_str());
    r.append(".ipa");
    r.append("\"");
    r
}

/// The base address of the service as seen by the client: scheme and host
/// of the request, `https` and `localhost` where they are not known.
pub fn base_url(parts: &Option<UrlParts>) -> (r: String)
    ensures
        r@ == (match parts {
            Some(p) => p.scheme@,
            None => "https"@,
        }) + "://"@ + (match parts {
            Some(p) => match p.host {
                Some(h) => h@,
                None => "localhost"@,
            },
            None => "localhost"@,
        }),
{
    let mut r = match parts {
        Some(p) => p.scheme.clone(),
        None => String::from_str("https"),
    };
    r.append("://");
    match parts {
        Some(p) => match &p.host {
            Some(h) => r.append(h.as_str()),
            None => r.append("localhost"),
        },
        None => r.append("localhost"),
    }
    r
}

/// The address of a file of the installation of the task `id`.
pub open spec fn install_path(base: Seq<char>, id: Seq<char>, file: Seq<char>) -> Seq<char> {
    base + "/api/install/"@ + id + "/"@ + file
}

/// The address of a file of the installation of the task `id`.
pub fn install_file_url(base: &str, id: &str, file: &str) -> (r: String)
    ensures
        r@ == install_path(base@, id@, file@),
{
    let mut r = String::from_str(base);
    r.append("/api/install/");
    r.append(id);
    r.append("/");
    r.append(file);
    r
}

/// The installation manifest of a task whose package can be handed out.
/// `None` where it cannot.
pub fn manifest(task: &DownloadTask, base: &str) -> (r: Option<String>)
    ensures
        r is Some <==> installable(task),
        r matches Some(xml) ==> xml@ == manifest_text(
            install_path(base@, task.id@, "payload.ipa"@),
            install_path(base@, task.id@, "icon-small.png"@),
            install_path(base@, task.id@, "icon-large.png"@),
            task.software.bundle_id@,
            task.software.version@,
            task.software.name@,
        ),
{
    if package_key(task).is_none() {
        return None;
    }
    let payload = install_file_url(base, task.id.as_str(), "payload.ipa");
    let small = install_file_url(base, task.id.as_str(), "icon-small.png");
    let large = install_file_url(base, task.id.as_str(), "icon-large.png");
    Some(build_manifest(&task.software, payload.as_str(), small.as_str(), large.as_str()))
}

/// The addresses that start an installation: that of the manifest, and the
/// `itms-services` address that holds it percent-encoded.
pub fn install_url(base: &str, id: &str) -> (r: (String, String))
    ensures
        r.1@ == install_path(base@, id@, "manifest.plist"@),
        r.0@ == "itms-services://?action=download-manifest&url="@ + percent_encoded(
            vstd::utf8::encode_utf8(r.1@),
        ),
{
    let manifest_url = install_file_url(base, id, "manifest.plist");
    let mut install = String::from_str("itms-services://?action=download-manifest&url=");
    let encoded = percent_encode(manifest_url.as_str());
    install.append(encoded.as_str());
    (install, manifest_url)
}

/// Why a request to create a download is refused, if it is: the URL is
/// checked first, then the request as a whole.
pub open spec fn create_fault(req: &CreateDownloadRequest) -> Option<Seq<char>> {
    if download_url_fault(url_parts_of(req.download_url@)) is Some {
        download_url_fault(url_parts_of(req.download_url@))
    } else {
        request_fault(req, url_parts_of(req.download_url@))
    }
}

/// Checks a request to create a download, the URL first and then the
/// request as a whole, before anything is stored or fetched.
fn check_create(req: &CreateDownloadRequest) -> (r: Result<(), ApiError>)
    ensures
        r is Ok <==> request_valid(req, url_parts_of(req.download_url@)),
        r matches Err(e) ==> e.kind == ErrorKind::BadRequest && Some(e.message@) == create_fault(
            req,
        ),
{
    match validate_download_url(req.download_url.as_str()) {
        Err(message) => {
            return Err(ApiError { kind: ErrorKind::BadRequest, message });
        },
        Ok(_) => {},
    }
    match validate_create_request(req) {
        Err(message) => Err(ApiError { kind: ErrorKind::BadRequest, message }),
        Ok(_) => Ok(()),
    }
}

/// Takes a request to create a download under the identifier `id` at the
/// time `created_at`: refuses it with its fault where it has one, before
/// anything is stored or fetched, and else makes the task and the
/// acquisition that is to be run for it.
pub fn create_download_with(req: CreateDownloadRequest, id: String, created_at: String) -> (r:
    Result<Pipeline, ApiError>)
    ensures
        r is Ok <==> request_valid(&req, url_parts_of(req.download_url@)),
        r matches Err(e) ==> e.kind == ErrorKind::BadRequest && Some(e.message@) == create_fault(
            &req,
        ),
        r matches Ok(p) ==> p.well_formed() && starts(p, p.task) && fresh_task(p.task, req)
            && p.task.id == id && p.task.created_at == created_at,
{
    match check_create(&req) {
        Err(e) => Err(e),
        Ok(_) => Ok(crate::download_manager::create_task_with(req, id, created_at)),
    }
}

/// Takes a request to create a download at the time `now_secs`, in seconds
/// since the beginning of 1970: refuses it with its fault where it has one,
/// before anything is stored or fetched, and else makes the task, under a
/// random identifier, and the acquisition that is to be run for it.
pub fn create_download(req: CreateDownloadRequest, now_secs: u64) -> (r: Result<
    Pipeline,
    ApiError,
>)
    ensures
        r is Ok <==> request_valid(&req, url_parts_of(req.download_url@)),
        r matches Err(e) ==> e.kind == ErrorKind::BadRequest && Some(e.message@) == create_fault(
            &req,
        ),
        r matches Ok(p) ==> p.well_formed() && starts(p, p.task) && fresh_task(p.task, req)
            && p.task.id@.len() == 36 && p.task.created_at@ == iso_timestamp(now_secs as int),
{
    match check_create(&req) {
        Err(e) => Err(e),
        Ok(_) => Ok(crate::download_manager::create_task(req, now_secs)),
    }
}

} // verus!
