use asspp_core::download::{
    build_ipa_path, build_task_dir, check_create_request, date_of_day, format_unix_timestamp,
    is_leap, new_task, new_task_with, validate_account_hash, validate_create_request,
};
use asspp_core::security::UrlParts;
use asspp_core::types::{CreateDownloadRequest, Sinf, Software, TaskStatus};

fn sample_software() -> Software {
    Software {
        id: 1,
        bundle_id: "com.test.app".into(),
        name: "Test".into(),
        version: "1.0".into(),
        price_bits: None,
        artist_name: "Dev".into(),
        seller_name: "Dev".into(),
        description: "Test".into(),
        average_user_rating_bits: 0.0f64.to_bits(),
        user_rating_count: 0,
        artwork_url: String::new(),
        screenshot_urls: vec![],
        minimum_os_version: "16.0".into(),
        file_size_bytes: None,
        release_date: "2024-01-01".into(),
        release_notes: None,
        formatted_price: None,
        primary_genre_name: "Utilities".into(),
    }
}

fn request(url: &str, sinfs: Vec<Sinf>) -> CreateDownloadRequest {
    CreateDownloadRequest {
        software: sample_software(),
        account_hash: "abcdef1234567890".into(),
        download_url: url.into(),
        sinfs,
        itunes_metadata: None,
    }
}

fn one_sinf() -> Vec<Sinf> {
    vec![Sinf { id: 0, sinf: "dGVzdA==".into() }]
}

#[test]
fn test_validate_create_request_valid() {
    let req = request("https://cdn.apple.com/file.ipa", one_sinf());
    assert!(validate_create_request(&req).is_ok());
}

#[test]
fn test_validate_create_request_empty_sinfs() {
    let req = request("https://cdn.apple.com/file.ipa", vec![]);
    assert!(validate_create_request(&req).is_err());
}

#[test]
fn test_validate_create_request_bad_url() {
    let req = request("http://evil.com/file.ipa", one_sinf());
    assert!(validate_create_request(&req).is_err());
}

#[test]
fn create_request_faults_in_order() {
    let mut req = request("http://evil.com/file.ipa", vec![]);
    req.account_hash = "a/b".into();
    assert_eq!(
        validate_create_request(&req).unwrap_err(),
        "Missing required fields: software, accountHash, downloadURL, sinfs"
    );
    req.sinfs = one_sinf();
    assert_eq!(validate_create_request(&req).unwrap_err(), "Download URL must use HTTPS");
    req.download_url = "https://cdn.apple.com/x".into();
    assert_eq!(
        validate_create_request(&req).unwrap_err(),
        "Invalid accountHash: must contain only alphanumeric characters, dots, dashes, or underscores"
    );
    req.account_hash = "abcdef12".into();
    req.software.bundle_id = "..".into();
    assert_eq!(validate_create_request(&req).unwrap_err(), "Invalid bundleID");
    req.software.bundle_id = "com.a".into();
    req.software.version = "".into();
    assert_eq!(
        validate_create_request(&req).unwrap_err(),
        "Invalid version: must contain only alphanumeric characters, dots, dashes, or underscores"
    );
    req.software.version = "1.0".into();
    assert!(validate_create_request(&req).is_ok());
    let parts = Some(UrlParts { scheme: "https".into(), host: Some("x.apple.com".into()) });
    assert!(check_create_request(&req, &parts).is_ok());
    assert_eq!(check_create_request(&req, &None).unwrap_err(), "Invalid download URL");
}

#[test]
fn test_build_task_dir() {
    let dir = build_task_dir("/data/packages", "abc123", "com.test.app", "1.0").unwrap();
    assert_eq!(dir, "/data/packages/abc123/com.test.app/1.0");
}

#[test]
fn build_task_dir_cleans_and_rejects() {
    assert_eq!(
        build_task_dir("/p", "a/b", "c d", "1:0").unwrap(),
        "/p/a_b/c_d/1_0"
    );
    assert_eq!(build_task_dir("/p", "..", "b", "c").unwrap_err(), "Invalid path segment");
    assert_eq!(build_task_dir("/p", "a", "", "c").unwrap_err(), "Invalid path segment");
    assert_eq!(build_task_dir("/p", "a", "b", ".").unwrap_err(), "Invalid path segment");
}

#[test]
fn test_build_ipa_path() {
    let p = build_ipa_path("/data/packages/abc/com.test/1.0", "task-123");
    assert_eq!(p, "/data/packages/abc/com.test/1.0/task-123.ipa");
}

#[test]
fn test_validate_account_hash() {
    assert!(validate_account_hash("abcdef1234567890"));
    assert!(validate_account_hash("12345678"));
    assert!(!validate_account_hash("short"));
    assert!(!validate_account_hash(""));
    assert!(!validate_account_hash("abc/def12345678"));
}

#[test]
fn test_format_unix_timestamp() {
    assert_eq!(format_unix_timestamp(0), "1970-01-01T00:00:00Z");
    // 2024-01-01 00:00:00 UTC = 1704067200
    assert_eq!(format_unix_timestamp(1704067200), "2024-01-01T00:00:00Z");
}

#[test]
fn format_unix_timestamp_dates() {
    assert_eq!(format_unix_timestamp(86399), "1970-01-01T23:59:59Z");
    assert_eq!(format_unix_timestamp(86400), "1970-01-02T00:00:00Z");
    assert_eq!(format_unix_timestamp(951782400), "2000-02-29T00:00:00Z");
    assert_eq!(format_unix_timestamp(951868800), "2000-03-01T00:00:00Z");
    assert_eq!(format_unix_timestamp(1709210096), "2024-02-29T12:34:56Z");
    assert_eq!(format_unix_timestamp(1735689599), "2024-12-31T23:59:59Z");
    assert_eq!(format_unix_timestamp(4102444800), "2100-01-01T00:00:00Z");
    assert_eq!(format_unix_timestamp(4107542400), "2100-03-01T00:00:00Z");
    assert_eq!(format_unix_timestamp(253402300800), "10000-01-01T00:00:00Z");
}

#[test]
fn leap_years_and_dates() {
    assert!(is_leap(2000));
    assert!(is_leap(2024));
    assert!(!is_leap(1900));
    assert!(!is_leap(2023));
    assert!(!is_leap(2100));
    assert_eq!(date_of_day(0), (1970, 0, 0));
    assert_eq!(date_of_day(364), (1970, 11, 30));
    assert_eq!(date_of_day(365), (1971, 0, 0));
    assert_eq!(date_of_day(19782), (2024, 1, 28));
}

#[test]
fn test_new_task() {
    let req = CreateDownloadRequest {
        software: sample_software(),
        account_hash: "abcdef1234567890".into(),
        download_url: "https://cdn.apple.com/file.ipa".into(),
        sinfs: vec![Sinf { id: 0, sinf: "dGVzdA==".into() }],
        itunes_metadata: Some("bWV0YQ==".into()),
    };
    let task = new_task(req, 1704067200);
    assert!(!task.id.is_empty());
    assert_eq!(task.status, TaskStatus::Pending);
    assert_eq!(task.progress, 0);
    assert_eq!(task.speed, "0 B/s");
    assert!(task.itunes_metadata.is_some());
}

#[test]
fn new_task_identifiers_and_time() {
    let a = new_task(request("https://cdn.apple.com/a", one_sinf()), 1704067200);
    let b = new_task(request("https://cdn.apple.com/a", one_sinf()), 1709210096);
    assert_eq!(a.id.len(), 36);
    assert_ne!(a.id, b.id);
    assert_eq!(a.created_at, "2024-01-01T00:00:00Z");
    assert_eq!(b.created_at, "2024-02-29T12:34:56Z");
    assert_eq!(a.status, TaskStatus::Pending);
    assert!(a.error.is_none());
    assert!(a.file_path.is_none());
    let t = new_task_with(
        request("https://cdn.apple.com/a", one_sinf()),
        "id-1".into(),
        "1970-01-01T00:00:00Z".into(),
    );
    assert_eq!(t.id, "id-1");
    assert_eq!(t.created_at, "1970-01-01T00:00:00Z");
    assert_eq!(t.download_url, "https://cdn.apple.com/a");
    assert_eq!(t.sinfs.len(), 1);
    assert!(t.error.is_none());
    assert!(t.file_path.is_none());
}
