use zipffi::Status;
use zipffi::archive::{Extracted, zip_compress, zip_decompress_first};

fn entry_of(archive: &[u8]) -> (Vec<u8>, Vec<u8>) {
    match zip_decompress_first(archive) {
        Ok(Extracted::Entry { data, name }) => (data, name),
        other => panic!("expected an entry, got {:?}", other),
    }
}

#[test]
fn round_trip_hello() {
    let archive = zip_compress(b"hello world", b"greeting.txt").unwrap();
    let (data, name) = entry_of(&archive);
    assert_eq!(data, b"hello world".to_vec());
    assert_eq!(name, b"greeting.txt".to_vec());
}

#[test]
fn round_trip_empty_data() {
    let archive = zip_compress(b"", b"empty.bin").unwrap();
    let (data, name) = entry_of(&archive);
    assert_eq!(data, Vec::<u8>::new());
    assert_eq!(name, b"empty.bin".to_vec());
}

#[test]
fn round_trip_larger_data() {
    let payload: Vec<u8> = (0..100_000u32).map(|i| (i % 251) as u8).collect();
    let archive = zip_compress(&payload, b"pattern.dat").unwrap();
    let (data, name) = entry_of(&archive);
    assert_eq!(data, payload);
    assert_eq!(name, b"pattern.dat".to_vec());
}

#[test]
fn round_trip_non_ascii_name() {
    let name_in = "r\u{00e9}sum\u{00e9}-\u{2192}.txt";
    let archive = zip_compress(b"accents", name_in.as_bytes()).unwrap();
    let (data, name) = entry_of(&archive);
    assert_eq!(data, b"accents".to_vec());
    assert_eq!(name, name_in.as_bytes().to_vec());
}

#[test]
fn invalid_utf8_name_rejected() {
    let result = zip_compress(b"payload", &[0xff, 0xfe, 0x80]);
    assert_eq!(result, Err(Status::NullArgument));
}

#[test]
fn oversized_name_rejected() {
    let name = vec![b'a'; 70_000];
    let result = zip_compress(b"payload", &name);
    assert_eq!(result, Err(Status::ArchiveFailure));
}

#[test]
fn nul_in_name_fails_extraction() {
    let archive = zip_compress(b"payload", b"before\0after").unwrap();
    let result = zip_decompress_first(&archive);
    assert!(matches!(result, Err(Status::IoFailure)));
}

#[test]
fn empty_archive_extracts_as_empty() {
    let mut writer = zip::ZipWriter::new(std::io::Cursor::new(Vec::new()));
    let bytes = writer.finish().unwrap().into_inner();
    let result = zip_decompress_first(&bytes);
    assert!(matches!(result, Ok(Extracted::EmptyArchive)));
}

#[test]
fn malformed_archive_rejected() {
    let result = zip_decompress_first(b"these bytes are no archive at all");
    assert!(matches!(result, Err(Status::ArchiveFailure)));
}

#[test]
fn truncated_archive_rejected() {
    let archive = zip_compress(b"some contents worth keeping", b"doc.txt").unwrap();
    let result = zip_decompress_first(&archive[..archive.len() / 2]);
    assert!(matches!(result, Err(Status::ArchiveFailure)));
}

#[test]
fn corrupted_archive_never_panics() {
    let archive = zip_compress(b"some contents worth keeping", b"doc.txt").unwrap();
    for i in 0..archive.len() {
        let mut bad = archive.clone();
        bad[i] ^= 0xff;
        let _ = zip_decompress_first(&bad);
    }
}

#[test]
fn produced_archive_is_standard_zip() {
    let archive = zip_compress(b"payload bytes", b"file.bin").unwrap();
    let mut parsed = zip::ZipArchive::new(std::io::Cursor::new(archive)).unwrap();
    assert_eq!(parsed.len(), 1);
    let mut first = parsed.by_index(0).unwrap();
    assert_eq!(first.name(), "file.bin");
    let mut out = Vec::new();
    std::io::Read::read_to_end(&mut first, &mut out).unwrap();
    assert_eq!(out, b"payload bytes".to_vec());
}

#[test]
fn compression_content_is_deterministic() {
    let first = zip_compress(b"same input", b"same.txt").unwrap();
    let second = zip_compress(b"same input", b"same.txt").unwrap();
    assert_eq!(entry_of(&first), entry_of(&second));
}

#[test]
fn status_codes_are_the_closed_set() {
    assert_eq!(Status::Okay.code(), 0);
    assert_eq!(Status::NullArgument.code(), 1);
    assert_eq!(Status::IoFailure.code(), 2);
    assert_eq!(Status::ArchiveFailure.code(), 3);
    assert_eq!(Status::AllocationFailure.code(), 4);
}

/// A hand-built archive holding one stored, unencrypted, empty entry named
/// "x" whose extra field carries an AES marker (id 0x9901, vendor "AE",
/// strength 3): a build without AES support cannot open such an entry and
/// must refuse it cleanly rather than crash.
fn aes_marked_archive() -> Vec<u8> {
    let extra: Vec<u8> = [
        0x9901u16.to_le_bytes().to_vec(), // header id: AES
        7u16.to_le_bytes().to_vec(),      // payload length
        2u16.to_le_bytes().to_vec(),      // vendor version AE-2
        0x4541u16.to_le_bytes().to_vec(), // vendor id "AE"
        vec![3u8],                        // strength: AES-256
        0u16.to_le_bytes().to_vec(),      // real method: stored
    ]
    .concat();
    let mut local: Vec<u8> = vec![0x50, 0x4b, 0x03, 0x04]; // local header signature
    local.extend_from_slice(&20u16.to_le_bytes()); // version needed
    local.extend_from_slice(&0u16.to_le_bytes()); // flags: not encrypted
    local.extend_from_slice(&0u16.to_le_bytes()); // method: stored
    local.extend_from_slice(&[0u8; 4]); // mod time and date
    local.extend_from_slice(&[0u8; 12]); // crc, sizes: all zero
    local.extend_from_slice(&1u16.to_le_bytes()); // name length
    local.extend_from_slice(&(extra.len() as u16).to_le_bytes());
    local.push(b'x');
    local.extend_from_slice(&extra);

    let mut central: Vec<u8> = vec![0x50, 0x4b, 0x01, 0x02]; // central header signature
    central.extend_from_slice(&20u16.to_le_bytes()); // version made by
    central.extend_from_slice(&20u16.to_le_bytes()); // version needed
    central.extend_from_slice(&0u16.to_le_bytes()); // flags: not encrypted
    central.extend_from_slice(&0u16.to_le_bytes()); // method: stored
    central.extend_from_slice(&[0u8; 4]); // mod time and date
    central.extend_from_slice(&[0u8; 12]); // crc, sizes: all zero
    central.extend_from_slice(&1u16.to_le_bytes()); // name length
    central.extend_from_slice(&(extra.len() as u16).to_le_bytes());
    central.extend_from_slice(&[0u8; 6]); // comment len, disk, internal attributes
    central.extend_from_slice(&[0u8; 4]); // external attributes
    central.extend_from_slice(&0u32.to_le_bytes()); // local header offset
    central.push(b'x');
    central.extend_from_slice(&extra);

    let mut end: Vec<u8> = vec![0x50, 0x4b, 0x05, 0x06]; // end-of-directory signature
    end.extend_from_slice(&[0u8; 4]); // disk numbers
    end.extend_from_slice(&1u16.to_le_bytes()); // entries on this disk
    end.extend_from_slice(&1u16.to_le_bytes()); // entries in total
    end.extend_from_slice(&(central.len() as u32).to_le_bytes()); // directory size
    end.extend_from_slice(&(local.len() as u32).to_le_bytes()); // directory offset
    end.extend_from_slice(&0u16.to_le_bytes()); // comment length
    [local, central, end].concat()
}

#[test]
fn aes_marked_entry_rejected_without_crash() {
    let bytes = aes_marked_archive();
    // The directory itself parses and reports one entry, so the refusal
    // below comes from opening the entry, not from a malformed directory.
    let parsed = zip::ZipArchive::new(std::io::Cursor::new(bytes.clone())).unwrap();
    assert_eq!(parsed.len(), 1);
    let result = zip_decompress_first(&bytes);
    assert!(matches!(result, Err(Status::ArchiveFailure)));
}
