use bugsink::archive::{program_among, program_in_archive, ArchiveError};

/// A gzip-compressed tar archive holding one file.
fn archive_with(name: &str, content: &[u8], mode: u32) -> Vec<u8> {
    let encoder = flate2::write::GzEncoder::new(Vec::new(), flate2::Compression::default());
    let mut builder = tar::Builder::new(encoder);
    let mut header = tar::Header::new_gnu();
    header.set_size(content.len() as u64);
    header.set_mode(mode);
    header.set_cksum();
    builder.append_data(&mut header, name, content).unwrap();
    let encoder = builder.into_inner().unwrap();
    encoder.finish().unwrap()
}

#[test]
fn test_extract_binary_valid_archive() {
    let content = b"fake binary content";
    let archive = archive_with("bugsink", &content[..], 0o755);
    let result = program_in_archive(&archive);
    assert!(result.is_ok());
    assert_eq!(result.unwrap(), content.to_vec());
}

#[test]
fn test_extract_binary_missing_entry() {
    let content = b"some other file";
    let archive = archive_with("not-bugsink", &content[..], 0o644);
    let result = program_in_archive(&archive);
    assert!(result.is_err());
    assert!(result.unwrap_err().message().contains("Corrupt archive"));
}

#[test]
fn program_in_a_directory_of_the_archive() {
    let archive = archive_with("release/bugsink", b"inner", 0o755);
    assert_eq!(program_in_archive(&archive), Ok(b"inner".to_vec()));
}

#[test]
fn unreadable_archive() {
    assert_eq!(program_in_archive(b"not a gzip stream"), Err(ArchiveError::EntryUnreadable));
    assert_eq!(ArchiveError::EntryUnreadable.message(), "Failed to read tar entry");
    assert_eq!(ArchiveError::EntriesUnreadable.message(), "Failed to read tar entries");
    assert_eq!(
        ArchiveError::PathUnreadable.message(),
        "Failed to read entry path from tar archive"
    );
    assert_eq!(
        ArchiveError::ProgramUnreadable.message(),
        "Failed to extract bugsink binary from archive"
    );
}

/// Bytes that do not compress well.
fn noise(n: usize) -> Vec<u8> {
    let mut x: u32 = 12345;
    (0..n)
        .map(|_| {
            x = x.wrapping_mul(1103515245).wrapping_add(12345);
            (x >> 16) as u8
        })
        .collect()
}

#[test]
fn damage_after_the_program_does_not_matter() {
    let encoder = flate2::write::GzEncoder::new(Vec::new(), flate2::Compression::default());
    let mut builder = tar::Builder::new(encoder);
    for (name, content) in [("bugsink", b"the program".to_vec()), ("extra", noise(200_000))] {
        let mut header = tar::Header::new_gnu();
        header.set_size(content.len() as u64);
        header.set_mode(0o755);
        header.set_cksum();
        builder.append_data(&mut header, name, &content[..]).unwrap();
    }
    let mut archive = builder.into_inner().unwrap().finish().unwrap();
    archive.truncate(archive.len() - 1000);
    assert_eq!(program_in_archive(&archive), Ok(b"the program".to_vec()));
}

#[test]
fn first_program_entry_is_taken() {
    let entries = vec![
        ("README".to_string(), b"r".to_vec()),
        ("bugsink".to_string(), b"first".to_vec()),
        ("x/bugsink".to_string(), b"second".to_vec()),
    ];
    assert_eq!(program_among(entries), Some(b"first".to_vec()));
    assert_eq!(program_among(vec![("bugsink/..".to_string(), b"no".to_vec())]), None);
    assert_eq!(program_among(Vec::new()), None);
}
