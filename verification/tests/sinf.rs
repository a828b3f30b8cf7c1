use asspp_core::sinf::{
    extract_bundle_name, is_info_plist, is_manifest_plist, plan_injection, InjectionSource,
};

#[test]
fn test_extract_bundle_name() {
    assert_eq!(
        extract_bundle_name("Payload/MyApp.app/Info.plist"),
        Some("MyApp".into())
    );
    assert_eq!(
        extract_bundle_name("Payload/My App.app/Info.plist"),
        Some("My App".into())
    );
    assert_eq!(extract_bundle_name("Payload/Watch/WatchApp.app/Info.plist"), None);
    assert_eq!(extract_bundle_name("random/file.txt"), None);
}

#[test]
fn test_is_manifest_plist() {
    assert!(is_manifest_plist("Payload/MyApp.app/SC_Info/Manifest.plist"));
    assert!(!is_manifest_plist("Payload/MyApp.app/Info.plist"));
    assert!(!is_manifest_plist("other/path"));
}

#[test]
fn test_is_info_plist() {
    assert!(is_info_plist("Payload/MyApp.app/Info.plist"));
    assert!(!is_info_plist("Payload/Watch/WatchApp.app/Info.plist"));
    assert!(!is_info_plist("random/file"));
}

#[test]
fn test_plan_injection_from_manifest() {
    let sinfs = vec![(0, vec![1, 2, 3]), (1, vec![4, 5, 6])];

    let plan = plan_injection(
        "MyApp",
        &InjectionSource::Manifest {
            sinf_paths: vec!["SC_Info/MyApp.sinf".into(), "SC_Info/MyAppExt.sinf".into()],
        },
        &sinfs,
        None,
    );

    assert_eq!(plan.files.len(), 2);
    assert_eq!(plan.files[0].0, "Payload/MyApp.app/SC_Info/MyApp.sinf");
    assert_eq!(plan.files[0].1, vec![1, 2, 3]);
    assert_eq!(plan.files[1].0, "Payload/MyApp.app/SC_Info/MyAppExt.sinf");
    assert_eq!(plan.files[1].1, vec![4, 5, 6]);
}

#[test]
fn test_plan_injection_from_info() {
    let sinfs = vec![(0, vec![10, 20, 30])];

    let plan = plan_injection(
        "MyApp",
        &InjectionSource::Info {
            bundle_executable: "MyAppExec".into(),
        },
        &sinfs,
        None,
    );

    assert_eq!(plan.files.len(), 1);
    assert_eq!(plan.files[0].0, "Payload/MyApp.app/SC_Info/MyAppExec.sinf");
}

#[test]
fn test_plan_injection_with_metadata() {
    let sinfs = vec![(0, vec![1])];
    let metadata = b"<plist>test</plist>";

    let plan = plan_injection(
        "App",
        &InjectionSource::Info {
            bundle_executable: "App".into(),
        },
        &sinfs,
        Some(metadata),
    );

    assert_eq!(plan.files.len(), 2);
    assert_eq!(plan.files[1].0, "iTunesMetadata.plist");
    assert_eq!(plan.files[1].1, metadata.to_vec());
}

#[test]
fn test_plan_injection_empty_sinfs() {
    let plan = plan_injection(
        "App",
        &InjectionSource::Info {
            bundle_executable: "App".into(),
        },
        &[],
        None,
    );
    assert!(plan.files.is_empty());
}

#[test]
fn test_plan_injection_fewer_sinfs_than_paths() {
    let sinfs = vec![(0, vec![1])];
    let plan = plan_injection(
        "App",
        &InjectionSource::Manifest {
            sinf_paths: vec!["a.sinf".into(), "b.sinf".into(), "c.sinf".into()],
        },
        &sinfs,
        None,
    );
    // Only 1 sinf provided, so only first path gets injected
    assert_eq!(plan.files.len(), 1);
}

#[test]
fn plan_pairs_first_paths_with_blobs_in_order() {
    let sinfs = vec![(7, vec![1u8]), (8, vec![2u8, 3u8])];
    let plan = plan_injection(
        "App",
        &InjectionSource::Manifest {
            sinf_paths: vec!["a.sinf".into(), "b.sinf".into(), "c.sinf".into()],
        },
        &sinfs,
        Some(&[9u8][..]),
    );
    assert_eq!(plan.files.len(), 3);
    assert_eq!(plan.files[0], ("Payload/App.app/a.sinf".to_string(), vec![1u8]));
    assert_eq!(plan.files[1], ("Payload/App.app/b.sinf".to_string(), vec![2u8, 3u8]));
    assert_eq!(plan.files[2], ("iTunesMetadata.plist".to_string(), vec![9u8]));
}

#[test]
fn plan_from_info_uses_only_first_blob() {
    let sinfs = vec![(0, vec![1u8]), (1, vec![2u8])];
    let plan = plan_injection(
        "App",
        &InjectionSource::Info {
            bundle_executable: "Exec".into(),
        },
        &sinfs,
        None,
    );
    assert_eq!(plan.files, vec![("Payload/App.app/SC_Info/Exec.sinf".to_string(), vec![1u8])]);
}

#[test]
fn plan_without_blobs_holds_metadata_alone() {
    let plan = plan_injection(
        "App",
        &InjectionSource::Manifest {
            sinf_paths: vec!["a.sinf".into()],
        },
        &[],
        Some(&[5u8][..]),
    );
    assert_eq!(plan.files, vec![("iTunesMetadata.plist".to_string(), vec![5u8])]);
    let none = plan_injection(
        "App",
        &InjectionSource::Manifest {
            sinf_paths: vec!["a.sinf".into()],
        },
        &[],
        None,
    );
    assert!(none.files.is_empty());
}

#[test]
fn bundle_name_is_first_component_ending_in_app() {
    assert_eq!(
        extract_bundle_name("Payload/Outer.app/PlugIns/Inner.app/Info.plist"),
        Some("Outer".into())
    );
    assert_eq!(extract_bundle_name("Payload/.app/Info.plist"), Some("".into()));
    assert_eq!(extract_bundle_name("A.app/Info.plist"), Some("A".into()));
    assert_eq!(extract_bundle_name("Payload/MyApp.app/SC_Info/Manifest.plist"), None);
    assert_eq!(extract_bundle_name("x.app/y/Z.app/Info.plistX"), Some("x".into()));
}
