use asspp_core::archive::{
    fits_as_name, kept_indices, plan_holds, rewrite_archive, InjectionError, MAX_NAME_BYTES,
};
use asspp_core::sinf::InjectionPlan;
use std::io::{Cursor, Read, Write};
use zip::write::SimpleFileOptions;
use zip::CompressionMethod;

fn build_zip(entries: &[(&str, &[u8], bool)]) -> Vec<u8> {
    let mut writer = zip::ZipWriter::new(Cursor::new(Vec::new()));
    for (name, data, deflate) in entries {
        let method = if *deflate {
            CompressionMethod::Deflated
        } else {
            CompressionMethod::Stored
        };
        writer
            .start_file(*name, SimpleFileOptions::default().compression_method(method))
            .unwrap();
        writer.write_all(data).unwrap();
    }
    writer.finish().unwrap().into_inner()
}

fn read_zip(bytes: &[u8]) -> Vec<(String, Vec<u8>, CompressionMethod, u64)> {
    let mut archive = zip::ZipArchive::new(Cursor::new(bytes)).unwrap();
    let mut out = Vec::new();
    for i in 0..archive.len() {
        let mut file = archive.by_index(i).unwrap();
        let mut data = Vec::new();
        file.read_to_end(&mut data).unwrap();
        out.push((file.name().to_string(), data, file.compression(), file.compressed_size()));
    }
    out
}

fn raw_bytes(bytes: &[u8], index: usize) -> Vec<u8> {
    let mut archive = zip::ZipArchive::new(Cursor::new(bytes)).unwrap();
    let mut file = archive.by_index_raw(index).unwrap();
    let mut data = Vec::new();
    file.read_to_end(&mut data).unwrap();
    data
}

fn plan(files: &[(&str, &[u8])]) -> InjectionPlan {
    InjectionPlan {
        files: files.iter().map(|(p, d)| (p.to_string(), d.to_vec())).collect(),
    }
}

#[test]
fn empty_plan_returns_the_input_byte_for_byte() {
    let long = vec![b'a'; 4000];
    let source = build_zip(&[("a.txt", &long, true), ("b.bin", b"xyz", false)]);
    assert_eq!(rewrite_archive(&source, &plan(&[])).unwrap(), source);
    assert_eq!(rewrite_archive(b"no archive at all", &plan(&[])).unwrap(), b"no archive at all");
    assert_eq!(rewrite_archive(b"", &plan(&[])).unwrap(), b"");
}

#[test]
fn planned_entry_replaces_the_existing_one_uncompressed() {
    let long = vec![b'a'; 4000];
    let old = vec![b'o'; 3000];
    let new = vec![b'n'; 3000];
    let source = build_zip(&[
        ("Payload/A.app/Info.plist", &long, true),
        ("Payload/A.app/SC_Info/A.sinf", &old, true),
        ("Payload/A.app/A", b"binary", false),
    ]);
    let out = rewrite_archive(&source, &plan(&[("Payload/A.app/SC_Info/A.sinf", &new)])).unwrap();
    let entries = read_zip(&out);
    let names: Vec<&str> = entries.iter().map(|e| e.0.as_str()).collect();
    assert_eq!(
        names,
        vec!["Payload/A.app/Info.plist", "Payload/A.app/A", "Payload/A.app/SC_Info/A.sinf"]
    );
    assert_eq!(entries[2].1, new);
    assert_eq!(entries[2].2, CompressionMethod::Stored);
    assert_eq!(entries[2].3, 3000);
    assert_eq!(entries[0].1, long);
    assert_eq!(entries[0].2, CompressionMethod::Deflated);
    assert_eq!(entries[1].1, b"binary");
    assert_eq!(entries[1].2, CompressionMethod::Stored);
}

#[test]
fn untouched_entries_keep_their_compressed_bytes() {
    let long: Vec<u8> = (0..5000u32).map(|i| (i % 7) as u8).collect();
    let source = build_zip(&[("keep.dat", &long, true), ("also.txt", b"hello", false)]);
    let out = rewrite_archive(&source, &plan(&[("new.bin", b"12345")])).unwrap();
    assert_eq!(raw_bytes(&out, 0), raw_bytes(&source, 0));
    assert_eq!(raw_bytes(&out, 1), raw_bytes(&source, 1));
    let before = read_zip(&source);
    let after = read_zip(&out);
    assert_eq!(after.len(), 3);
    assert_eq!(after[0], before[0]);
    assert_eq!(after[1], before[1]);
    assert!(after[0].3 < 5000);
    assert_eq!(after[2].0, "new.bin");
    assert_eq!(after[2].1, b"12345");
    assert_eq!(after[2].2, CompressionMethod::Stored);
}

#[test]
fn planned_files_are_written_in_plan_order() {
    let source = build_zip(&[("x", b"1", false), ("y", b"2", false), ("z", b"3", false)]);
    let out = rewrite_archive(&source, &plan(&[("z", b"Z"), ("w", b"W"), ("x", b"X")])).unwrap();
    let entries = read_zip(&out);
    let seen: Vec<(&str, &[u8])> = entries.iter().map(|e| (e.0.as_str(), e.1.as_slice())).collect();
    assert_eq!(
        seen,
        vec![("y", &b"2"[..]), ("z", &b"Z"[..]), ("w", &b"W"[..]), ("x", &b"X"[..])]
    );
}

#[test]
fn rewriting_is_repeatable() {
    let source = build_zip(&[("x", b"1", true)]);
    let a = rewrite_archive(&source, &plan(&[("n", b"N")])).unwrap();
    let b = rewrite_archive(&source, &plan(&[("n", b"N")])).unwrap();
    assert_eq!(a, b);
}

#[test]
fn malformed_archive_is_fatal() {
    assert_eq!(
        rewrite_archive(b"this is no archive", &plan(&[("a", b"b")])),
        Err(InjectionError::ReadArchive)
    );
    assert_eq!(rewrite_archive(b"", &plan(&[("a", b"b")])), Err(InjectionError::ReadArchive));
}

#[test]
fn a_path_planned_twice_cannot_be_written() {
    let source = build_zip(&[("x", b"1", false)]);
    assert_eq!(
        rewrite_archive(&source, &plan(&[("a", b"1"), ("a", b"2")])),
        Err(InjectionError::WriteArchive)
    );
}

/// An archive with one empty stored entry whose raw name is `name`, not
/// marked as UTF-8.
fn archive_with_raw_name(name: &[u8]) -> Vec<u8> {
    let len = (name.len() as u16).to_le_bytes();
    let mut out = vec![0x50, 0x4b, 0x03, 0x04, 20, 0, 0, 0, 0, 0, 0, 0, 0x21, 0];
    out.extend_from_slice(&[0; 12]);
    out.extend_from_slice(&len);
    out.extend_from_slice(&[0, 0]);
    out.extend_from_slice(name);
    let directory_at = out.len() as u32;
    out.extend_from_slice(&[0x50, 0x4b, 0x01, 0x02, 20, 0, 20, 0, 0, 0, 0, 0, 0, 0, 0x21, 0]);
    out.extend_from_slice(&[0; 12]);
    out.extend_from_slice(&len);
    out.extend_from_slice(&[0; 12]);
    out.extend_from_slice(&[0, 0, 0, 0]);
    out.extend_from_slice(name);
    let directory_len = out.len() as u32 - directory_at;
    out.extend_from_slice(&[0x50, 0x4b, 0x05, 0x06, 0, 0, 0, 0, 1, 0, 1, 0]);
    out.extend_from_slice(&directory_len.to_le_bytes());
    out.extend_from_slice(&directory_at.to_le_bytes());
    out.extend_from_slice(&[0, 0]);
    out
}

#[test]
fn a_planned_path_that_does_not_fit_cannot_be_written() {
    let source = build_zip(&[("x", b"1", false)]);
    let long = "a".repeat(MAX_NAME_BYTES + 1);
    assert_eq!(
        rewrite_archive(&source, &plan(&[(long.as_str(), b"1")])),
        Err(InjectionError::WriteArchive)
    );
    let wide = "\u{e9}".repeat(40000);
    assert_eq!(
        rewrite_archive(&source, &plan(&[(wide.as_str(), b"1")])),
        Err(InjectionError::WriteArchive)
    );
    assert!(!fits_as_name(&long));
    assert!(!fits_as_name(&wide));
    assert!(fits_as_name(&"a".repeat(MAX_NAME_BYTES)));
    assert!(fits_as_name(""));
    assert_eq!(MAX_NAME_BYTES, 65535);
}

#[test]
fn a_source_entry_whose_name_does_not_fit_cannot_be_copied() {
    let short = archive_with_raw_name(b"plain.txt");
    let out = rewrite_archive(&short, &plan(&[("new", b"N")])).unwrap();
    let entries = read_zip(&out);
    assert_eq!(entries.len(), 2);
    assert_eq!(entries[0].0, "plain.txt");
    assert_eq!(entries[1].0, "new");

    let source = archive_with_raw_name(&vec![0x80u8; 40000]);
    let mut archive = zip::ZipArchive::new(Cursor::new(&source[..])).unwrap();
    assert!(archive.by_index_raw(0).unwrap().name().len() > MAX_NAME_BYTES);
    assert_eq!(
        rewrite_archive(&source, &plan(&[("new", b"N")])),
        Err(InjectionError::WriteArchive)
    );
    assert_eq!(rewrite_archive(&source, &plan(&[])).unwrap(), source);
}

#[test]
fn kept_indices_on_given_names() {
    let names = vec![
        Some("a".to_string()),
        Some("b".to_string()),
        Some("c".to_string()),
        Some("b2".to_string()),
    ];
    let p = plan(&[("b", b"1"), ("zz", b"2"), ("c", b"3")]);
    assert_eq!(kept_indices(&names, &p), Some(vec![0, 3]));
    assert_eq!(kept_indices(&names, &plan(&[])), Some(vec![0, 1, 2, 3]));
    assert_eq!(kept_indices(&vec![], &p), Some(vec![]));
    let broken = vec![Some("a".to_string()), None, Some("b".to_string())];
    assert_eq!(kept_indices(&broken, &p), None);
    assert!(plan_holds(&p, "b"));
    assert!(plan_holds(&p, "zz"));
    assert!(!plan_holds(&p, "a"));
    assert!(!plan_holds(&p, "B"));
    assert!(!plan_holds(&plan(&[]), "b"));
}

#[test]
fn error_messages() {
    assert_eq!(InjectionError::ReadArchive.message(), "Read ZIP");
    assert_eq!(InjectionError::MissingBundleName.message(), "Could not read bundle name");
    assert_eq!(
        InjectionError::MissingSource.message(),
        "Could not read manifest or info plist"
    );
}
