//! Archive decoding and extraction planning, against archives built with
//! the real codecs.

use std::io::Write;

use isoterm::codec::{
    check_plan_safety, decode_archive, extract_plan, find_single_file, plan_full_tree,
    plan_single_binary, plan_sub_tree, ArchiveEntry, ArchiveType, ExtractionStrategy,
    PlannedEntry,
};
use isoterm::errors::UserError;

fn tar_gz(entries: &[(&str, &[u8])]) -> Vec<u8> {
    let mut builder = tar::Builder::new(Vec::new());
    for (path, data) in entries {
        let mut header = tar::Header::new_gnu();
        header.set_size(data.len() as u64);
        header.set_mode(0o644);
        header.set_cksum();
        builder.append_data(&mut header, path, *data).unwrap();
    }
    let tar_bytes = builder.into_inner().unwrap();
    let mut encoder = flate2::write::GzEncoder::new(Vec::new(), flate2::Compression::default());
    encoder.write_all(&tar_bytes).unwrap();
    encoder.finish().unwrap()
}

fn tar_xz(entries: &[(&str, &[u8])]) -> Vec<u8> {
    let mut builder = tar::Builder::new(Vec::new());
    for (path, data) in entries {
        let mut header = tar::Header::new_gnu();
        header.set_size(data.len() as u64);
        header.set_mode(0o644);
        header.set_cksum();
        builder.append_data(&mut header, path, *data).unwrap();
    }
    let tar_bytes = builder.into_inner().unwrap();
    let mut encoder = xz2::write::XzEncoder::new(Vec::new(), 6);
    encoder.write_all(&tar_bytes).unwrap();
    encoder.finish().unwrap()
}

fn zip_bytes(entries: &[(&str, &[u8])]) -> Vec<u8> {
    let cursor = std::io::Cursor::new(Vec::new());
    let mut writer = zip::ZipWriter::new(cursor);
    let options = zip::write::SimpleFileOptions::default();
    for (path, data) in entries {
        writer.start_file(*path, options).unwrap();
        writer.write_all(data).unwrap();
    }
    writer.finish().unwrap().into_inner()
}

#[test]
fn test_from_asset_name_formats() {
    assert!(matches!(
        ArchiveType::from_asset_name("tool-1.0.tar.gz"),
        Ok(ArchiveType::TarGz)
    ));
    assert!(matches!(
        ArchiveType::from_asset_name("tool-1.0.tar.xz"),
        Ok(ArchiveType::TarXz)
    ));
    assert!(matches!(ArchiveType::from_asset_name("tool-1.0.zip"), Ok(ArchiveType::Zip)));
    assert!(matches!(
        ArchiveType::from_asset_name("tool-1.0.tar.bz2"),
        Err(UserError::UnsupportedArchiveFormat { .. })
    ));
}

#[test]
fn test_tar_gz_decode_round_trip() {
    let data = tar_gz(&[("wrap/bin/tool", b"binary content")]);
    let entries = decode_archive(ArchiveType::TarGz, &data).unwrap();
    assert_eq!(entries.len(), 1);
    assert_eq!(entries[0].path, "wrap/bin/tool");
    assert_eq!(entries[0].data, b"binary content");
    assert!(!entries[0].is_dir);
}

#[test]
fn test_tar_xz_decode_round_trip() {
    let data = tar_xz(&[("wrap/doc/readme", b"hello")]);
    let entries = decode_archive(ArchiveType::TarXz, &data).unwrap();
    assert_eq!(entries.len(), 1);
    assert_eq!(entries[0].path, "wrap/doc/readme");
    assert_eq!(entries[0].data, b"hello");
}

#[test]
fn test_zip_decode_round_trip() {
    let data = zip_bytes(&[("wrap/tool.exe", b"zipped content")]);
    let entries = decode_archive(ArchiveType::Zip, &data).unwrap();
    assert_eq!(entries.len(), 1);
    assert_eq!(entries[0].path, "wrap/tool.exe");
    assert_eq!(entries[0].data, b"zipped content");
}

#[test]
fn test_corrupt_archive_is_reported() {
    let garbage = vec![1u8, 2, 3, 4, 5];
    assert!(matches!(
        decode_archive(ArchiveType::TarGz, &garbage),
        Err(UserError::ArchiveExtractionFailed)
    ));
    assert!(matches!(
        decode_archive(ArchiveType::Zip, &garbage),
        Err(UserError::ArchiveExtractionFailed)
    ));
    assert!(matches!(
        decode_archive(ArchiveType::TarXz, &garbage),
        Err(UserError::ArchiveExtractionFailed)
    ));
}

#[test]
fn test_full_tree_strips_one_leading_component() {
    let data = tar_gz(&[
        ("fish-3.7.1/bin/fish", b"shell".as_slice()),
        ("fish-3.7.1/doc/README", b"doc".as_slice()),
        ("flat", b"top".as_slice()),
    ]);
    let entries = decode_archive(ArchiveType::TarGz, &data).unwrap();
    let plan = plan_full_tree(&entries);
    assert_eq!(plan.len(), 3);
    assert_eq!(plan[0].path, "bin/fish");
    assert_eq!(plan[0].data, b"shell");
    assert_eq!(plan[1].path, "doc/README");
    assert_eq!(plan[2].path, "flat");
}

#[test]
fn test_sub_tree_keeps_only_segment_entries() {
    let data = tar_gz(&[
        ("fish-3.7.1/share/completions/git.fish", b"completions".as_slice()),
        ("fish-3.7.1/share/functions/ls.fish", b"functions".as_slice()),
        ("fish-3.7.1/bin/fish", b"shell".as_slice()),
        ("share/top.fish", b"unwrapped".as_slice()),
    ]);
    let entries = decode_archive(ArchiveType::TarGz, &data).unwrap();
    let plan = plan_sub_tree(&entries, "share");
    assert_eq!(plan.len(), 2);
    assert_eq!(plan[0].path, "completions/git.fish");
    assert_eq!(plan[0].data, b"completions");
    assert_eq!(plan[1].path, "functions/ls.fish");
}

#[test]
fn test_single_binary_found_by_base_name() {
    let data = tar_gz(&[
        ("ripgrep-14.1.0/doc/rg.1", b"manual".as_slice()),
        ("ripgrep-14.1.0/rg", b"the binary".as_slice()),
    ]);
    let entries = decode_archive(ArchiveType::TarGz, &data).unwrap();
    let idx = find_single_file(&entries, "rg").unwrap();
    assert_eq!(idx, 1);
    let planned = plan_single_binary(&entries, "rg").unwrap();
    assert_eq!(planned.path, "rg");
    assert_eq!(planned.data, b"the binary");
    assert_eq!(planned.mode, Some(0o755));
    assert!(!planned.is_dir);
}

#[test]
fn test_single_binary_missing_is_reported() {
    let entries = vec![ArchiveEntry {
        path: String::from("wrap/other"),
        data: vec![0u8],
        is_dir: false,
        mode: None,
    }];
    let err = find_single_file(&entries, "rg").unwrap_err();
    assert!(matches!(err, UserError::BinaryNotFoundInArchive { .. }));
}

#[test]
fn test_extract_plan_single_binary() {
    let data = zip_bytes(&[("starship-x86_64/starship", b"prompt".as_slice())]);
    let strategy = ExtractionStrategy::SingleBinary { binary_name: String::from("starship") };
    let plan = extract_plan(ArchiveType::Zip, &data, &strategy).unwrap();
    assert_eq!(plan.len(), 1);
    assert_eq!(plan[0].path, "starship");
    assert_eq!(plan[0].data, b"prompt");
    assert_eq!(plan[0].mode, Some(0o755));
}

#[test]
fn test_extract_plan_full_archive() {
    let data = tar_xz(&[("helix-24.03/hx", b"editor".as_slice())]);
    let strategy = ExtractionStrategy::FullArchive { path_in_archive: String::from("hx") };
    let plan = extract_plan(ArchiveType::TarXz, &data, &strategy).unwrap();
    assert_eq!(plan.len(), 1);
    assert_eq!(plan[0].path, "hx");
    assert_eq!(plan[0].data, b"editor");
}

#[test]
fn test_plan_safety_check() {
    let safe = |path: &str| PlannedEntry {
        path: String::from(path),
        data: Vec::new(),
        is_dir: false,
        mode: None,
    };
    assert!(check_plan_safety(&vec![
        safe("bin/tool"),
        safe("share/completions/git.fish"),
        safe("a..b/weird..name"),
    ]));
    assert!(!check_plan_safety(&vec![safe("/etc/passwd")]));
    assert!(!check_plan_safety(&vec![safe("..")]));
    assert!(!check_plan_safety(&vec![safe("../escape")]));
    assert!(!check_plan_safety(&vec![safe("a/../escape")]));
    assert!(!check_plan_safety(&vec![safe("a/..")]));
    assert!(!check_plan_safety(&vec![safe("ok"), safe("../bad")]));
}
