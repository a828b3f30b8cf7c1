use asspp_core::archive::InjectionError;
use asspp_core::download_manager::{
    create_task, create_task_with, is_success, storage_key, Action, Event, Pipeline,
    PipelineError, Stage,
};
use asspp_core::types::{CreateDownloadRequest, DownloadTask, Sinf, Software, TaskStatus};
use std::io::{Cursor, Read, Write};

fn software() -> Software {
    Software {
        id: 1,
        bundle_id: "com.test.app".into(),
        name: "Test".into(),
        version: "1.0".into(),
        price_bits: None,
        artist_name: "Dev".into(),
        seller_name: "Dev".into(),
        description: "Test".into(),
        average_user_rating_bits: 0,
        user_rating_count: 0,
        artwork_url: String::new(),
        screenshot_urls: vec![],
        minimum_os_version: "16.0".into(),
        file_size_bytes: None,
        release_date: "2024-01-01".into(),
        release_notes: None,
        formatted_price: None,
        primary_genre_name: "Utilities".into(),
    }
}

fn request(url: &str, sinfs: Vec<Sinf>) -> CreateDownloadRequest {
    CreateDownloadRequest {
        software: software(),
        account_hash: "abcdef1234567890".into(),
        download_url: url.into(),
        sinfs,
        itunes_metadata: Some("aGVsbG8=".into()),
    }
}

fn create_task_at(req: CreateDownloadRequest) -> Pipeline {
    create_task(req, 1704067200)
}

fn one_sinf() -> Vec<Sinf> {
    vec![Sinf { id: 0, sinf: "dGVzdA==".into() }]
}

fn package() -> Vec<u8> {
    let info = br#"<?xml version="1.0" encoding="UTF-8"?>
<plist version="1.0"><dict><key>CFBundleExecutable</key><string>Exec</string></dict></plist>"#;
    let mut writer = zip::ZipWriter::new(Cursor::new(Vec::new()));
    writer
        .start_file("Payload/App.app/Info.plist", zip::write::SimpleFileOptions::default())
        .unwrap();
    writer.write_all(info).unwrap();
    writer.finish().unwrap().into_inner()
}

fn entry_names(bytes: &[u8]) -> Vec<(String, Vec<u8>)> {
    let mut archive = zip::ZipArchive::new(Cursor::new(bytes)).unwrap();
    let mut out = Vec::new();
    for i in 0..archive.len() {
        let mut file = archive.by_index(i).unwrap();
        let mut data = Vec::new();
        file.read_to_end(&mut data).unwrap();
        out.push((file.name().to_string(), data));
    }
    out
}

struct World {
    answer: Option<(u16, Vec<u8>)>,
    fail_persist_at: Option<usize>,
    fail_blob: bool,
    persisted: Vec<DownloadTask>,
    warnings: Vec<InjectionError>,
    fetched: Vec<String>,
    blobs: Vec<(String, Vec<u8>)>,
    steps: usize,
}

impl World {
    fn new(answer: Option<(u16, Vec<u8>)>) -> World {
        World {
            answer,
            fail_persist_at: None,
            fail_blob: false,
            persisted: vec![],
            warnings: vec![],
            fetched: vec![],
            blobs: vec![],
            steps: 0,
        }
    }

    fn run(&mut self, p: &mut Pipeline) -> Result<(), PipelineError> {
        let mut event = Event::Begin;
        loop {
            self.steps += 1;
            assert!(self.steps <= 7);
            event = match p.step(event) {
                Action::PersistTask => {
                    if self.fail_persist_at == Some(self.persisted.len()) {
                        self.fail_persist_at = None;
                        self.persisted.push(p.task.clone());
                        self.persisted.pop();
                        Event::PersistFailed
                    } else {
                        self.persisted.push(p.task.clone());
                        Event::Persisted
                    }
                }
                Action::Fetch { url } => {
                    self.fetched.push(url);
                    match self.answer.take() {
                        Some((status, body)) => Event::Fetched { status, body },
                        None => Event::FetchFailed,
                    }
                }
                Action::StoreBlob { key, bytes, injection_failure } => {
                    self.warnings.extend(injection_failure);
                    if self.fail_blob {
                        Event::BlobFailed
                    } else {
                        self.blobs.push((key, bytes));
                        Event::BlobStored
                    }
                }
                Action::Finish(outcome) => return outcome,
            };
        }
    }

    fn statuses(&self) -> Vec<TaskStatus> {
        self.persisted.iter().map(|t| t.status).collect()
    }
}

#[test]
fn acquisition_with_one_blob_completes() {
    let mut p = create_task_at(request("https://cdn.apple.com/file.ipa", one_sinf()));
    assert_eq!(p.task.status, TaskStatus::Pending);
    let id = p.task.id.clone();
    let mut world = World::new(Some((200, package())));
    assert_eq!(world.run(&mut p), Ok(()));
    assert_eq!(
        world.statuses(),
        vec![TaskStatus::Downloading, TaskStatus::Injecting, TaskStatus::Completed]
    );
    assert_eq!(world.fetched, vec!["https://cdn.apple.com/file.ipa"]);
    assert!(p.is_done());
    assert_eq!(p.stage, Stage::Done);
    assert_eq!(p.task.status, TaskStatus::Completed);
    assert_eq!(p.task.progress, 100);
    assert_eq!(p.task.download_url, "");
    assert!(p.task.sinfs.is_empty());
    assert!(p.task.itunes_metadata.is_none());
    assert!(p.task.error.is_none());
    let key = format!("packages/abcdef1234567890/com.test.app/1.0/{}.ipa", id);
    assert_eq!(p.task.file_path, Some(key.clone()));
    assert_eq!(world.blobs.len(), 1);
    assert!(world.warnings.is_empty());
    assert_eq!(world.blobs[0].0, key);
    let entries = entry_names(&world.blobs[0].1);
    assert_eq!(entries.len(), 3);
    assert_eq!(entries[1], ("Payload/App.app/SC_Info/Exec.sinf".to_string(), b"test".to_vec()));
    assert_eq!(entries[2], ("iTunesMetadata.plist".to_string(), b"hello".to_vec()));
    let last = world.persisted.last().unwrap();
    assert_eq!(last.status, TaskStatus::Completed);
    assert_eq!(last.download_url, "");
    assert!(last.sinfs.is_empty());
    let shown = p.task.sanitize(p.task.file_path.is_some());
    assert_eq!(shown.has_file, Some(true));
    assert_eq!(shown.status, TaskStatus::Completed);
    assert_eq!(shown.progress, 100);
    let text = format!("{:?}", shown);
    assert!(!text.contains(&key));
    assert!(!text.contains("cdn.apple.com"));
}

#[test]
fn bad_status_fails_the_task_and_stores_nothing() {
    let mut p = create_task_at(request("https://cdn.apple.com/file.ipa", one_sinf()));
    let mut world = World::new(Some((500, b"oops".to_vec())));
    assert_eq!(world.run(&mut p), Err(PipelineError::Http(500)));
    assert_eq!(world.statuses(), vec![TaskStatus::Downloading, TaskStatus::Failed]);
    assert!(world.blobs.is_empty());
    assert_eq!(p.task.status, TaskStatus::Failed);
    assert_eq!(p.task.error.as_deref(), Some("Download failed"));
    assert!(p.task.file_path.is_none());
    assert_eq!(p.task.download_url, "");
    assert!(p.task.sinfs.is_empty());
    assert!(p.task.itunes_metadata.is_none());
    assert!(p.is_done());
    let mut q = create_task_at(request("https://cdn.apple.com/file.ipa", one_sinf()));
    let mut world = World::new(Some((400, vec![])));
    assert_eq!(world.run(&mut q), Err(PipelineError::Http(400)));
    for status in [100u16, 199, 300, 304, 399, 404, 503, 65535] {
        let mut r = create_task_at(request("https://cdn.apple.com/file.ipa", one_sinf()));
        let mut world = World::new(Some((status, package())));
        assert_eq!(world.run(&mut r), Err(PipelineError::Http(status)));
        assert_eq!(world.statuses(), vec![TaskStatus::Downloading, TaskStatus::Failed]);
        assert!(world.blobs.is_empty());
        assert_eq!(r.task.status, TaskStatus::Failed);
        assert!(!r.task.error.clone().unwrap().is_empty());
    }
    for status in [200u16, 204, 206, 299] {
        let mut r = create_task_at(request("https://cdn.apple.com/file.ipa", one_sinf()));
        let mut world = World::new(Some((status, package())));
        assert_eq!(world.run(&mut r), Ok(()));
        assert_eq!(r.task.status, TaskStatus::Completed);
    }
    assert!(is_success(200) && is_success(299));
    assert!(!is_success(199) && !is_success(300) && !is_success(0));
}

#[test]
fn failed_injection_stores_the_package_as_fetched() {
    let mut p = create_task_at(request("https://cdn.apple.com/file.ipa", one_sinf()));
    let mut world = World::new(Some((200, b"not an archive".to_vec())));
    assert_eq!(world.run(&mut p), Ok(()));
    assert_eq!(
        world.statuses(),
        vec![TaskStatus::Downloading, TaskStatus::Injecting, TaskStatus::Completed]
    );
    assert_eq!(world.blobs[0].1, b"not an archive");
    assert_eq!(p.task.status, TaskStatus::Completed);
    assert_eq!(world.warnings, vec![InjectionError::ReadArchive]);
}

#[test]
fn task_is_made_as_asked() {
    let p = create_task_with(
        request("https://cdn.apple.com/file.ipa", one_sinf()),
        "id-7".into(),
        "2024-01-01T00:00:00Z".into(),
    );
    assert_eq!(p.stage, Stage::Created);
    assert!(p.is_well_formed());
    assert_eq!(p.task.id, "id-7");
    assert_eq!(p.task.created_at, "2024-01-01T00:00:00Z");
    assert_eq!(p.task.status, TaskStatus::Pending);
    assert_eq!(p.task.progress, 0);
    assert_eq!(p.task.speed, "0 B/s");
    assert!(p.task.error.is_none());
    assert!(p.task.file_path.is_none());
    assert!(p.key.is_none());
    assert!(p.failure.is_none());
    let q = create_task_at(request("https://cdn.apple.com/file.ipa", one_sinf()));
    assert_eq!(q.task.id.len(), 36);
    assert_eq!(q.task.created_at, "2024-01-01T00:00:00Z");
    assert!(q.task.file_path.is_none());
}

#[test]
fn task_without_blobs_is_stored_without_injection() {
    let mut p = create_task_at(request("https://cdn.apple.com/file.ipa", vec![]));
    let body = package();
    let mut world = World::new(Some((200, body.clone())));
    assert_eq!(world.run(&mut p), Ok(()));
    assert_eq!(world.statuses(), vec![TaskStatus::Downloading, TaskStatus::Completed]);
    assert_eq!(world.blobs[0].1, body);
}

#[test]
fn failures_end_in_failed() {
    let mut p = create_task_at(request("https://cdn.apple.com/file.ipa", one_sinf()));
    let mut world = World::new(None);
    assert_eq!(world.run(&mut p), Err(PipelineError::Network));
    assert_eq!(p.task.status, TaskStatus::Failed);

    let mut p = create_task_at(request("https://evil.com/file.ipa", one_sinf()));
    let mut world = World::new(Some((200, package())));
    assert_eq!(world.run(&mut p), Err(PipelineError::InvalidUrl));
    assert!(world.fetched.is_empty());
    assert_eq!(p.task.status, TaskStatus::Failed);

    let mut p = create_task_at(request("https://cdn.apple.com/file.ipa", one_sinf()));
    let mut world = World::new(Some((200, package())));
    world.fail_blob = true;
    assert_eq!(world.run(&mut p), Err(PipelineError::Storage));
    assert_eq!(p.task.status, TaskStatus::Failed);
    assert!(p.task.file_path.is_none());

    for at in 0..3 {
        let mut p = create_task_at(request("https://cdn.apple.com/file.ipa", one_sinf()));
        let mut world = World::new(Some((200, package())));
        world.fail_persist_at = Some(at);
        assert_eq!(world.run(&mut p), Err(PipelineError::Storage));
        assert_eq!(p.task.status, TaskStatus::Failed);
        assert_eq!(p.task.error.as_deref(), Some("Download failed"));
        assert!(p.task.sinfs.is_empty());
    }

    let mut req = request("https://cdn.apple.com/file.ipa", vec![]);
    req.software.version = "..".into();
    let mut p = create_task_at(req);
    let mut world = World::new(Some((200, package())));
    assert_eq!(world.run(&mut p), Err(PipelineError::InvalidPath));
    assert!(world.blobs.is_empty());
}

#[test]
fn unexpected_reports_fail_the_acquisition() {
    let mut p = create_task_at(request("https://cdn.apple.com/file.ipa", one_sinf()));
    assert!(matches!(p.step(Event::Persisted), Action::PersistTask));
    assert_eq!(p.task.status, TaskStatus::Failed);
    assert_eq!(p.stage, Stage::SavingFailed);
    assert!(matches!(
        p.step(Event::PersistFailed),
        Action::Finish(Err(PipelineError::Unexpected))
    ));
    assert!(p.is_done());
    assert!(matches!(p.step(Event::Begin), Action::Finish(Err(PipelineError::Unexpected))));
    assert_eq!(p.stage, Stage::Done);
}

#[test]
fn paused_task_can_be_run_again() {
    let mut task = create_task_at(request("https://cdn.apple.com/file.ipa", one_sinf())).task;
    task.status = TaskStatus::Paused;
    let id = task.id.clone();
    let mut p = Pipeline::new(task);
    let mut world = World::new(Some((200, package())));
    assert_eq!(world.run(&mut p), Ok(()));
    assert_eq!(p.task.id, id);
    assert_eq!(p.task.status, TaskStatus::Completed);
    assert_eq!(
        world.statuses(),
        vec![TaskStatus::Downloading, TaskStatus::Injecting, TaskStatus::Completed]
    );
}

#[test]
fn storage_key_cleans_its_segments() {
    let mut task = create_task_at(request("https://cdn.apple.com/file.ipa", one_sinf())).task;
    task.id = "id-1".into();
    task.account_hash = "a/b".into();
    task.software.bundle_id = "com test".into();
    assert_eq!(storage_key(&task), Some("packages/a_b/com_test/1.0/id-1.ipa".to_string()));
    task.account_hash = "".into();
    assert_eq!(storage_key(&task), None);
}
