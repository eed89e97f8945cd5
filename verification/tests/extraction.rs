use std::io::Cursor;
use std::io::Write;

use ffmpeg_setup::archive::ArchiveEntry;
use ffmpeg_setup::archive::ArchiveError;
use ffmpeg_setup::archive::extract_entries;
use ffmpeg_setup::archive::extract_from_bytes;
use ffmpeg_setup::archive::open_archive;

fn three_entry_list() -> Vec<ArchiveEntry> {
    vec![
        ArchiveEntry { name: b"a/".to_vec(), is_dir: true, data: Vec::new() },
        ArchiveEntry { name: b"a/b.txt".to_vec(), is_dir: false, data: b"hello".to_vec() },
        ArchiveEntry { name: b"../evil.txt".to_vec(), is_dir: false, data: b"bad".to_vec() },
    ]
}

fn three_entry_zip() -> Vec<u8> {
    let mut w = zip::write::ZipWriter::new(Cursor::new(Vec::new()));
    let opts = zip::write::SimpleFileOptions::default();
    w.add_directory("a", opts).unwrap();
    w.start_file("a/b.txt", opts).unwrap();
    w.write_all(b"hello").unwrap();
    w.start_file("../evil.txt", opts).unwrap();
    w.write_all(b"bad").unwrap();
    w.finish().unwrap().into_inner()
}

#[test]
fn in_memory_extraction_skips_traversal_entry() {
    // A directory, a nested file and a traversal entry: exactly the two
    // legitimate paths are created, the third is skipped.
    let report = extract_entries(&three_entry_list(), &b"/out".to_vec());
    assert_eq!(report.dirs, vec![b"/out/a".to_vec()]);
    assert_eq!(report.files.len(), 1);
    assert_eq!(report.files[0].0, b"/out/a/b.txt".to_vec());
    assert_eq!(report.files[0].1, b"hello".to_vec());
    assert_eq!(report.skipped, 1);
    for d in &report.dirs {
        assert!(d.starts_with(b"/out/"));
    }
    for (p, _) in &report.files {
        assert!(p.starts_with(b"/out/"));
    }
}

#[test]
fn zip_extraction_matches_in_memory_extraction() {
    // The same three entries through a real archive: nothing is written
    // outside the output root, and contents survive compression.
    let result = extract_from_bytes(three_entry_zip(), &b"/out".to_vec());
    let report = result.expect("a well-formed archive extracts");
    assert_eq!(report.dirs, vec![b"/out/a".to_vec()]);
    assert_eq!(report.files.len(), 1);
    assert_eq!(report.files[0].0, b"/out/a/b.txt".to_vec());
    assert_eq!(report.files[0].1, b"hello".to_vec());
    assert_eq!(report.skipped, 1);
}

#[test]
fn opened_archive_extracts_like_bytes() {
    let mut archive = open_archive(three_entry_zip()).expect("archive opens");
    let report = ffmpeg_setup::archive::extract_archive(&mut archive, &b"root".to_vec())
        .expect("archive extracts");
    assert_eq!(report.dirs, vec![b"root/a".to_vec()]);
    assert_eq!(report.files.len(), 1);
    assert_eq!(report.files[0].0, b"root/a/b.txt".to_vec());
    assert_eq!(report.skipped, 1);
}

#[test]
fn garbage_bytes_are_malformed() {
    let result = open_archive(b"this is not an archive".to_vec());
    assert!(matches!(result, Err(ArchiveError::Malformed)));
}

#[test]
fn empty_archive_extracts_to_nothing() {
    let w = zip::write::ZipWriter::new(Cursor::new(Vec::new()));
    let bytes = w.finish().unwrap().into_inner();
    let report = extract_from_bytes(bytes, &b"/out".to_vec()).expect("empty archive extracts");
    assert!(report.dirs.is_empty());
    assert!(report.files.is_empty());
    assert_eq!(report.skipped, 0);
}

#[test]
fn deep_entries_keep_their_structure() {
    let mut w = zip::write::ZipWriter::new(Cursor::new(Vec::new()));
    let opts = zip::write::SimpleFileOptions::default();
    w.start_file("x/y/z.bin", opts).unwrap();
    w.write_all(&[1u8, 2, 3, 255]).unwrap();
    let bytes = w.finish().unwrap().into_inner();
    let report = extract_from_bytes(bytes, &b"dest".to_vec()).expect("archive extracts");
    assert!(report.dirs.is_empty());
    assert_eq!(report.files.len(), 1);
    assert_eq!(report.files[0].0, b"dest/x/y/z.bin".to_vec());
    assert_eq!(report.files[0].1, vec![1u8, 2, 3, 255]);
    assert_eq!(report.skipped, 0);
}

#[test]
fn corrupted_entry_data_is_unreadable() {
    // A stored entry whose bytes are flipped after writing fails its
    // checksum when read back.
    let mut w = zip::write::ZipWriter::new(Cursor::new(Vec::new()));
    let opts = zip::write::SimpleFileOptions::default()
        .compression_method(zip::CompressionMethod::Stored);
    w.start_file("a.txt", opts).unwrap();
    w.write_all(b"hello").unwrap();
    let mut bytes = w.finish().unwrap().into_inner();
    let pos = bytes
        .windows(5)
        .position(|window| window == b"hello")
        .expect("stored data appears literally");
    bytes[pos] ^= 0xFF;
    let result = extract_from_bytes(bytes, &b"/out".to_vec());
    assert!(matches!(result, Err(ArchiveError::UnreadableEntry)));
}

#[test]
fn unreadable_entries_are_reported_not_written() {
    // An absolute path is skipped just like a traversal path.
    let entries = vec![
        ArchiveEntry { name: b"/etc/passwd".to_vec(), is_dir: false, data: b"x".to_vec() },
        ArchiveEntry { name: b"ok.txt".to_vec(), is_dir: false, data: b"fine".to_vec() },
    ];
    let report = extract_entries(&entries, &b"/out".to_vec());
    assert!(report.dirs.is_empty());
    assert_eq!(report.files.len(), 1);
    assert_eq!(report.files[0].0, b"/out/ok.txt".to_vec());
    assert_eq!(report.skipped, 1);
}
