use std::io::Write;

use pdf_shell::archive::{extract, install_files, is_lib_file};
use pdf_shell::artifact::build_artifact_descriptor;
use pdf_shell::platform::{arch_tag, os_tag};
use pdf_shell::provision::{fetch_status, provisioning_plan, validate_platform, ProvisionAction,
    ProvisionError};
use pdf_shell::text::{remove_suffix, str_eq};

#[test]
fn os_tags_map_supported_targets() {
    assert_eq!(os_tag("windows"), "win");
    assert_eq!(os_tag("macos"), "mac");
    assert_eq!(os_tag("linux"), "unsupported");
    assert_eq!(os_tag(""), "unsupported");
}

#[test]
fn arch_tags_map_supported_targets() {
    assert_eq!(arch_tag("x86"), "x86");
    assert_eq!(arch_tag("x86_64"), "x64");
    assert_eq!(arch_tag("aarch64"), "unsupported");
}

#[test]
fn descriptor_for_mac_x64() {
    let d = build_artifact_descriptor("6666", "mac", "x64");
    assert_eq!(
        d.url,
        "https://github.com/bblanchon/pdfium-binaries/releases/download/chromium%2F6666/pdfium-mac-x64.tgz"
    );
    assert_eq!(d.archive_name, "pdfium-mac-x64.tgz");
    assert_eq!(d.base_name, "pdfium-mac-x64");
}

#[test]
fn descriptor_is_deterministic() {
    let a = build_artifact_descriptor("7001", "win", "x86");
    let b = build_artifact_descriptor("7001", "win", "x86");
    assert_eq!(a.url, b.url);
    assert_eq!(a.archive_name, b.archive_name);
    assert_eq!(a.base_name, b.base_name);
}

#[test]
fn platform_validation_rejects_unsupported_tags() {
    assert_eq!(validate_platform("mac", "x64"), Ok(()));
    assert_eq!(validate_platform("win", "x86"), Ok(()));
    assert_eq!(
        validate_platform("unsupported", "x64"),
        Err(ProvisionError::UnsupportedPlatform)
    );
    assert_eq!(
        validate_platform("win", "unsupported"),
        Err(ProvisionError::UnsupportedPlatform)
    );
}

#[test]
fn cached_archive_is_never_fetched() {
    let plan = provisioning_plan(true);
    assert_eq!(plan, vec![ProvisionAction::Extract, ProvisionAction::Install]);
    assert!(plan.iter().all(|a| *a != ProvisionAction::Fetch));
}

#[test]
fn missing_archive_is_fetched_first() {
    let plan = provisioning_plan(false);
    assert_eq!(
        plan,
        vec![
            ProvisionAction::Fetch,
            ProvisionAction::Extract,
            ProvisionAction::Install,
        ]
    );
}

#[test]
fn only_status_200_is_success() {
    assert_eq!(fetch_status(200), Ok(()));
    assert_eq!(fetch_status(404), Err(ProvisionError::HttpStatus(404)));
    assert_eq!(fetch_status(301), Err(ProvisionError::HttpStatus(301)));
}

#[test]
fn suffix_removal() {
    assert_eq!(remove_suffix("pdfium-mac-x64.tgz", ".tgz"), "pdfium-mac-x64");
    assert_eq!(remove_suffix("pdfium-mac-x64", ".tgz"), "pdfium-mac-x64");
    assert_eq!(remove_suffix(".tgz", ".tgz"), "");
    assert_eq!(remove_suffix("a", ".tgz"), "a");
}

#[test]
fn string_equality() {
    assert!(str_eq("bin/", "bin/"));
    assert!(!str_eq("bin/", "bin"));
    assert!(!str_eq("abc", "abd"));
    assert!(str_eq("", ""));
}

#[test]
fn lib_file_detection() {
    assert!(is_lib_file("bin/pdfium.dll"));
    assert!(!is_lib_file("bin/"));
    assert!(!is_lib_file("lib/pdfium.so"));
    assert!(!is_lib_file("bin/sub/pdfium.so"));
}

fn tgz_of(entries: &[(&str, &[u8])]) -> Vec<u8> {
    let mut builder = tar::Builder::new(Vec::new());
    for (path, contents) in entries {
        let mut header = tar::Header::new_gnu();
        header.set_size(contents.len() as u64);
        builder.append_data(&mut header, path, *contents).unwrap();
    }
    let tarball = builder.into_inner().unwrap();
    let mut encoder =
        flate2::write::GzEncoder::new(Vec::new(), flate2::Compression::default());
    encoder.write_all(&tarball).unwrap();
    encoder.finish().unwrap()
}

#[test]
fn extract_returns_the_archived_entries() {
    let archive = tgz_of(&[
        ("bin/pdfium.dylib", b"native library bytes"),
        ("lib/readme", b"docs"),
    ]);
    let entries = extract(&archive).unwrap();
    assert_eq!(entries.len(), 2);
    assert_eq!(entries[0].0, "bin/pdfium.dylib");
    assert_eq!(entries[0].1, b"native library bytes");
    assert_eq!(entries[1].0, "lib/readme");
    assert_eq!(entries[1].1, b"docs");
}

#[test]
fn extract_rejects_bytes_that_are_not_gzip() {
    assert_eq!(
        extract(b"this is not a gzip stream"),
        Err(ProvisionError::CorruptArchive)
    );
}

#[test]
fn extract_rejects_a_gzip_stream_that_is_not_tar() {
    let mut encoder =
        flate2::write::GzEncoder::new(Vec::new(), flate2::Compression::default());
    encoder.write_all(&[0x55u8; 700]).unwrap();
    let archive = encoder.finish().unwrap();
    assert_eq!(extract(&archive), Err(ProvisionError::CorruptArchive));
}

#[test]
fn install_selects_the_bin_files_under_their_bare_names() {
    let archive = tgz_of(&[
        ("lib/readme", b"docs"),
        ("bin/pdfium.dylib", b"native library bytes"),
        ("bin/helper.dylib", b"helper bytes"),
    ]);
    let entries = extract(&archive).unwrap();
    let files = install_files(&entries);
    assert_eq!(files.len(), 2);
    assert_eq!(files[0].0, "pdfium.dylib");
    assert_eq!(files[0].1, b"native library bytes");
    assert_eq!(files[1].0, "helper.dylib");
    assert_eq!(files[1].1, b"helper bytes");
}

#[test]
fn provisioning_twice_leaves_the_same_output_files() {
    let archive = tgz_of(&[
        ("bin/pdfium.dylib", b"native library bytes"),
        ("bin/helper.dylib", b"helper bytes"),
    ]);
    let mut output: std::collections::HashMap<String, Vec<u8>> =
        std::collections::HashMap::new();
    output.insert("pdfium.dylib".to_string(), b"stale bytes".to_vec());
    output.insert("app".to_string(), b"the executable".to_vec());
    for (name, contents) in install_files(&extract(&archive).unwrap()) {
        output.insert(name, contents);
    }
    let after_one_run = output.clone();
    for (name, contents) in install_files(&extract(&archive).unwrap()) {
        output.insert(name, contents);
    }
    assert_eq!(output, after_one_run);
    assert_eq!(output["pdfium.dylib"], b"native library bytes");
    assert_eq!(output["app"], b"the executable");
}

#[test]
fn extracting_twice_gives_identical_entries() {
    let archive = tgz_of(&[("bin/pdfium.dll", b"bytes")]);
    let first = extract(&archive).unwrap();
    let second = extract(&archive).unwrap();
    assert_eq!(first, second);
    assert_eq!(install_files(&first), install_files(&second));
}
