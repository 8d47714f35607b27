use railroad_harness::archive::{accept_entry, extract_entries, extract_extension};
use railroad_harness::error::HarnessError;
use std::io::{Cursor, Write};
use zip::write::FileOptions;
use zip::{CompressionMethod, ZipArchive, ZipWriter};

fn pack(entries: &[(&str, &[u8])], method: CompressionMethod) -> Vec<u8> {
    let mut writer = ZipWriter::new(Cursor::new(Vec::new()));
    for (name, data) in entries {
        writer
            .start_file(*name, FileOptions::default().compression_method(method))
            .unwrap();
        writer.write_all(data).unwrap();
    }
    writer.finish().unwrap().into_inner()
}

#[test]
fn manifest_and_script_unpack_byte_identical() {
    let manifest: &[u8] = b"{\"name\": \"railroad\", \"manifest_version\": 2}";
    let script: &[u8] = b"console.log('diagram');\n";
    let manifest_path = ["manifest", "json"].join(".");
    let bytes = pack(
        &[(manifest_path.as_str(), manifest), ("content/script.js", script)],
        CompressionMethod::Deflated,
    );
    let files = extract_extension(bytes).unwrap();
    assert_eq!(files.len(), 2);
    assert_eq!(files[0].path, manifest_path);
    assert_eq!(files[0].contents, manifest);
    assert_eq!(files[1].path, "content/script.js");
    assert_eq!(files[1].contents, script);
}

#[test]
fn stored_entries_unpack_in_archive_order() {
    let bytes = pack(
        &[("b.txt", b"second"), ("a.txt", b"first"), ("c/d/e.bin", &[0, 1, 2, 255])],
        CompressionMethod::Stored,
    );
    let files = extract_extension(bytes).unwrap();
    let paths: Vec<&str> = files.iter().map(|f| f.path.as_str()).collect();
    assert_eq!(paths, vec!["b.txt", "a.txt", "c/d/e.bin"]);
    assert_eq!(files[2].contents, vec![0, 1, 2, 255]);
}

#[test]
fn archive_without_entries_unpacks_to_no_files() {
    let bytes = pack(&[], CompressionMethod::Stored);
    let files = extract_extension(bytes).unwrap();
    assert!(files.is_empty());
}

#[test]
fn bytes_that_are_no_archive_are_an_io_failure() {
    assert_eq!(extract_extension(Vec::new()).unwrap_err(), HarnessError::Io);
    assert_eq!(extract_extension(b"not a zip archive at all".to_vec()).unwrap_err(), HarnessError::Io);
}

#[test]
fn entry_leaving_the_directory_is_an_io_failure() {
    let bytes = pack(
        &[("ok.txt", b"fine"), ("../escape.txt", b"outside")],
        CompressionMethod::Stored,
    );
    assert_eq!(extract_extension(bytes).unwrap_err(), HarnessError::Io);
    let bytes = pack(&[("/etc/absolute", b"x")], CompressionMethod::Stored);
    assert_eq!(extract_extension(bytes).unwrap_err(), HarnessError::Io);
}

#[test]
fn corrupted_entry_is_an_io_failure() {
    let payload: &[u8] = b"payload-payload-payload";
    let mut bytes = pack(&[("data.bin", payload)], CompressionMethod::Stored);
    let at = bytes
        .windows(payload.len())
        .position(|w| w == payload)
        .unwrap();
    bytes[at] ^= 0xff;
    assert_eq!(extract_extension(bytes).unwrap_err(), HarnessError::Io);
}

#[test]
fn opened_archive_unpacks_like_its_bytes() {
    let bytes = pack(&[("x/y.txt", b"xy")], CompressionMethod::Deflated);
    let archive = ZipArchive::new(Cursor::new(bytes.clone())).unwrap();
    let from_archive = extract_entries(archive).unwrap();
    let from_bytes = extract_extension(bytes).unwrap();
    assert_eq!(from_archive.len(), 1);
    assert_eq!(from_archive[0].path, from_bytes[0].path);
    assert_eq!(from_archive[0].contents, from_bytes[0].contents);
    assert_eq!(from_archive[0].contents, b"xy");
}

#[test]
fn entry_is_accepted_only_with_path_and_bytes() {
    let file = accept_entry(Some("a/b".to_string()), Ok(vec![1, 2, 3])).unwrap();
    assert_eq!(file.path, "a/b");
    assert_eq!(file.contents, vec![1, 2, 3]);
    assert_eq!(accept_entry(None, Ok(vec![1])).unwrap_err(), HarnessError::Io);
    let broken = std::io::Error::new(std::io::ErrorKind::InvalidData, "crc");
    assert_eq!(
        accept_entry(Some("a".to_string()), Err(broken)).unwrap_err(),
        HarnessError::Io
    );
}

fn position(haystack: &[u8], needle: &[u8], from: usize) -> usize {
    from + haystack[from..]
        .windows(needle.len())
        .position(|w| w == needle)
        .unwrap()
}

#[test]
fn entry_marked_encrypted_is_an_io_failure() {
    let mut bytes = pack(
        &[("secret.bin", b"sixteen byte data")],
        CompressionMethod::Stored,
    );
    let central = position(&bytes, b"PK\x01\x02", 0);
    bytes[central + 8] |= 1;
    assert_eq!(extract_extension(bytes).unwrap_err(), HarnessError::Io);
}

#[test]
fn entry_with_an_encryption_record_but_no_mark_is_an_io_failure() {
    let record: [u8; 11] = [0xfe, 0xca, 7, 0, 2, 0, 0x41, 0x45, 1, 0, 0];
    let mut writer = ZipWriter::new(Cursor::new(Vec::new()));
    writer
        .start_file_with_extra_data(
            "odd.bin",
            FileOptions::default().compression_method(CompressionMethod::Stored),
        )
        .unwrap();
    writer.write_all(&record).unwrap();
    writer.end_extra_data().unwrap();
    writer.write_all(b"payload").unwrap();
    let mut bytes = writer.finish().unwrap().into_inner();
    let mut from = 0;
    for _ in 0..2 {
        let at = position(&bytes, &record, from);
        bytes[at] = 0x01;
        bytes[at + 1] = 0x99;
        from = at + 1;
    }
    assert_eq!(extract_extension(bytes).unwrap_err(), HarnessError::Io);
}

#[test]
fn directory_entries_are_listed_like_files() {
    let mut writer = ZipWriter::new(Cursor::new(Vec::new()));
    writer.add_directory("content", FileOptions::default()).unwrap();
    writer
        .start_file("content/a.js", FileOptions::default())
        .unwrap();
    writer.write_all(b"a").unwrap();
    let bytes = writer.finish().unwrap().into_inner();
    let files = extract_extension(bytes).unwrap();
    assert_eq!(files.len(), 2);
    assert_eq!(files[0].path, "content/");
    assert!(files[0].contents.is_empty());
    assert_eq!(files[1].path, "content/a.js");
    assert_eq!(files[1].contents, b"a");
}
