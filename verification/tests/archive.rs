use std::io::Write;

use ripvid::archive::{entry_matches, extract_from_zip};
use ripvid::errors::FetchError;
use ripvid::platform::Os;

fn archive(entries: &[(&str, &[u8])]) -> Vec<u8> {
    let mut writer = zip::ZipWriter::new(std::io::Cursor::new(Vec::new()));
    let options =
        zip::write::FileOptions::default().compression_method(zip::CompressionMethod::Stored);
    for (name, data) in entries {
        writer.start_file(*name, options).unwrap();
        writer.write_all(data).unwrap();
    }
    writer.finish().unwrap().into_inner()
}

#[test]
fn entry_names_that_hold_a_binary() {
    assert!(entry_matches("ffmpeg-6.0/bin/ffmpeg.exe", "ffmpeg", Os::Windows));
    assert!(!entry_matches("ffmpeg-6.0/bin/ffmpeg.exe.txt", "ffmpeg", Os::Windows));
    assert!(!entry_matches("ffmpeg-6.0/bin/ffmpeg", "ffmpeg", Os::Windows));
    assert!(entry_matches("ffmpeg-6.0/readme.txt", "ffmpeg", Os::MacOs));
    assert!(entry_matches("ffprobe", "ffprobe", Os::Linux));
    assert!(!entry_matches("bin/ffmpeg", "ffprobe", Os::Linux));
    assert!(entry_matches("anything", "", Os::Linux));
}

#[test]
fn the_binary_is_taken_out() {
    let bytes = archive(&[
        ("pkg/doc/readme.txt", b"read me"),
        ("pkg/bin/ffprobe.exe", b"PROBE"),
        ("pkg/bin/ffmpeg.exe", b"FFMPEG"),
    ]);
    assert_eq!(extract_from_zip(&bytes, "ffmpeg", Os::Windows).unwrap(), b"FFMPEG".to_vec());
    assert_eq!(extract_from_zip(&bytes, "ffprobe", Os::Windows).unwrap(), b"PROBE".to_vec());
}

#[test]
fn the_first_entry_that_matches_is_taken() {
    let bytes = archive(&[("ffmpeg-notes.txt", b"notes"), ("ffmpeg", b"BINARY")]);
    assert_eq!(extract_from_zip(&bytes, "ffmpeg", Os::MacOs).unwrap(), b"notes".to_vec());
}

#[test]
fn a_missing_binary_is_reported() {
    let bytes = archive(&[("pkg/doc/readme.txt", b"read me")]);
    match extract_from_zip(&bytes, "ffmpeg", Os::Windows) {
        Err(FetchError::NotFoundInArchive(name)) => assert_eq!(name, "ffmpeg.exe"),
        other => panic!("unexpected result {:?}", other),
    }
    match extract_from_zip(&bytes, "ffmpeg", Os::Linux) {
        Err(FetchError::NotFoundInArchive(name)) => assert_eq!(name, "ffmpeg"),
        other => panic!("unexpected result {:?}", other),
    }
    let empty = archive(&[]);
    assert!(matches!(
        extract_from_zip(&empty, "ffmpeg", Os::Linux),
        Err(FetchError::NotFoundInArchive(_))
    ));
}

#[test]
fn bytes_that_are_no_archive_are_reported() {
    match extract_from_zip(b"this is not a zip file", "ffmpeg", Os::Linux) {
        Err(FetchError::InvalidArchive(reason)) => assert!(!reason.is_empty()),
        other => panic!("unexpected result {:?}", other),
    }
}

#[test]
fn an_entry_that_cannot_be_opened_ends_the_search() {
    let mut bytes = archive(&[("ffmpeg", b"BINARY")]);
    // The archive begins with the header of its first entry.
    bytes[0] = b'X';
    match extract_from_zip(&bytes, "ffmpeg", Os::Linux) {
        Err(FetchError::ArchiveEntry(reason)) => assert!(!reason.is_empty()),
        other => panic!("unexpected result {:?}", other),
    }
}

#[test]
fn an_entry_with_damaged_content_is_not_handed_out() {
    let mut bytes = archive(&[("ffmpeg", b"BINARY")]);
    let at = bytes.windows(6).position(|w| w == b"BINARY").unwrap();
    bytes[at] = b'X';
    match extract_from_zip(&bytes, "ffmpeg", Os::Linux) {
        Err(FetchError::ArchiveEntry(reason)) => assert!(!reason.is_empty()),
        other => panic!("unexpected result {:?}", other),
    }
}

/// An archive with one stored entry, written by hand so that its header
/// in the directory can carry any flags and any extra field.
fn raw_archive(name: &str, data: &[u8], flags: u16, method: u16, extra: &[u8]) -> Vec<u8> {
    let mut out = Vec::new();
    // The entry itself.
    out.extend_from_slice(&0x0403_4b50u32.to_le_bytes());
    out.extend_from_slice(&20u16.to_le_bytes());
    out.extend_from_slice(&flags.to_le_bytes());
    out.extend_from_slice(&method.to_le_bytes());
    out.extend_from_slice(&[0u8; 4]);
    out.extend_from_slice(&0u32.to_le_bytes());
    out.extend_from_slice(&(data.len() as u32).to_le_bytes());
    out.extend_from_slice(&(data.len() as u32).to_le_bytes());
    out.extend_from_slice(&(name.len() as u16).to_le_bytes());
    out.extend_from_slice(&0u16.to_le_bytes());
    out.extend_from_slice(name.as_bytes());
    out.extend_from_slice(data);
    // The directory.
    let directory_at = out.len() as u32;
    out.extend_from_slice(&0x0201_4b50u32.to_le_bytes());
    out.extend_from_slice(&20u16.to_le_bytes());
    out.extend_from_slice(&20u16.to_le_bytes());
    out.extend_from_slice(&flags.to_le_bytes());
    out.extend_from_slice(&method.to_le_bytes());
    out.extend_from_slice(&[0u8; 4]);
    out.extend_from_slice(&0u32.to_le_bytes());
    out.extend_from_slice(&(data.len() as u32).to_le_bytes());
    out.extend_from_slice(&(data.len() as u32).to_le_bytes());
    out.extend_from_slice(&(name.len() as u16).to_le_bytes());
    out.extend_from_slice(&(extra.len() as u16).to_le_bytes());
    out.extend_from_slice(&[0u8; 10]);
    out.extend_from_slice(&0u32.to_le_bytes());
    out.extend_from_slice(name.as_bytes());
    out.extend_from_slice(extra);
    let directory_len = out.len() as u32 - directory_at;
    // The end of the directory.
    out.extend_from_slice(&0x0605_4b50u32.to_le_bytes());
    out.extend_from_slice(&[0u8; 4]);
    out.extend_from_slice(&1u16.to_le_bytes());
    out.extend_from_slice(&1u16.to_le_bytes());
    out.extend_from_slice(&directory_len.to_le_bytes());
    out.extend_from_slice(&directory_at.to_le_bytes());
    out.extend_from_slice(&0u16.to_le_bytes());
    out
}

/// The extra field that marks an entry as encrypted with AES.
fn aes_field(method: u16) -> Vec<u8> {
    let mut extra = Vec::new();
    extra.extend_from_slice(&0x9901u16.to_le_bytes());
    extra.extend_from_slice(&7u16.to_le_bytes());
    extra.extend_from_slice(&2u16.to_le_bytes());
    extra.extend_from_slice(&0x4541u16.to_le_bytes());
    extra.push(3);
    extra.extend_from_slice(&method.to_le_bytes());
    extra
}

#[test]
fn a_hand_written_archive_is_read() {
    let bytes = raw_archive("ffmpeg", b"", 0, 0, &[]);
    assert_eq!(extract_from_zip(&bytes, "ffmpeg", Os::Linux).unwrap(), Vec::<u8>::new());
}

#[test]
fn an_entry_with_an_encryption_field_but_no_flag_is_an_error() {
    for method in [0u16, 8] {
        let bytes = raw_archive("ffmpeg", b"", 0, 99, &aes_field(method));
        match extract_from_zip(&bytes, "ffmpeg", Os::Linux) {
            Err(FetchError::ArchiveEntry(reason)) => {
                assert_eq!(reason, "invalid password for file in archive")
            }
            other => panic!("unexpected result {:?}", other),
        }
    }
}

#[test]
fn an_encrypted_entry_is_an_error() {
    let bytes = raw_archive("ffmpeg", b"0123456789abcdef", 1, 99, &aes_field(8));
    assert!(matches!(
        extract_from_zip(&bytes, "ffmpeg", Os::Linux),
        Err(FetchError::ArchiveEntry(_))
    ));
    let bytes = raw_archive("ffmpeg", b"", 1, 0, &[]);
    assert!(matches!(
        extract_from_zip(&bytes, "ffmpeg", Os::Linux),
        Err(FetchError::ArchiveEntry(_))
    ));
}
