use std::io::Read;
use std::io::Write;

use tar_bench::archive::{
    archive_and_compress, build_archive, gunzip_bytes, gzip_bytes, ArchiveError, TreeEntry,
};

fn file(path: &str, data: Vec<u8>) -> TreeEntry {
    TreeEntry::File {
        path: path.to_string(),
        data,
        mode: 0o644,
        mtime: 1_700_000_000,
    }
}

fn dir(path: &str) -> TreeEntry {
    TreeEntry::Directory {
        path: path.to_string(),
        mode: 0o755,
        mtime: 1_700_000_000,
    }
}

fn entry_path(e: &TreeEntry) -> &str {
    match e {
        TreeEntry::File { path, .. } => path,
        TreeEntry::Directory { path, .. } => path,
    }
}

fn entry_data(e: &TreeEntry) -> &[u8] {
    match e {
        TreeEntry::File { data, .. } => data,
        TreeEntry::Directory { .. } => &[],
    }
}

fn entry_is_dir(e: &TreeEntry) -> bool {
    matches!(e, TreeEntry::Directory { .. })
}

/// A small source tree of about ten kibibytes: directories first, then
/// their files, as a walk emits them.
fn ten_kib_tree() -> Vec<TreeEntry> {
    let mut entries = Vec::new();
    entries.push(file("README", b"a fixture tree for the harness\n".to_vec()));
    entries.push(dir("lib"));
    for i in 0..4 {
        let path = format!("lib/file_{}.txt", i);
        let mut data = Vec::new();
        while data.len() < 2048 {
            data.extend_from_slice(format!("line {} of file {}\n", data.len(), i).as_bytes());
        }
        entries.push(file(&path, data));
    }
    entries.push(dir("bin"));
    entries.push(file("bin/tool", vec![0u8; 2048]));
    entries
}

/// Decode a tar archive into (path, data, mode, mtime, is_dir) tuples.
fn read_tar(bytes: &[u8]) -> Vec<(String, Vec<u8>, u32, u64, bool)> {
    let mut archive = tar::Archive::new(bytes);
    let mut out = Vec::new();
    for item in archive.entries().unwrap() {
        let mut item = item.unwrap();
        let path = item.path().unwrap().to_str().unwrap().to_string();
        let mode = item.header().mode().unwrap();
        let mtime = item.header().mtime().unwrap();
        let is_dir = item.header().entry_type().is_dir();
        let mut data = Vec::new();
        item.read_to_end(&mut data).unwrap();
        out.push((path, data, mode, mtime, is_dir));
    }
    out
}

#[test]
fn library_tar_decodes_to_given_tree() {
    let entries = ten_kib_tree();
    let bytes = build_archive(&entries).unwrap();
    let decoded = read_tar(&bytes);
    assert_eq!(decoded.len(), entries.len());
    for (got, want) in decoded.iter().zip(entries.iter()) {
        assert_eq!(got.0, entry_path(want));
        assert_eq!(got.1, entry_data(want));
        assert_eq!(got.2, if entry_is_dir(want) { 0o755 } else { 0o644 });
        assert_eq!(got.3, 1_700_000_000);
        assert_eq!(got.4, entry_is_dir(want));
    }
}

#[test]
fn library_tar_keeps_directory_entries() {
    let entries = vec![dir("sub"), file("sub/leaf", b"x".to_vec())];
    let decoded = read_tar(&build_archive(&entries).unwrap());
    assert_eq!(decoded.len(), 2);
    assert_eq!(decoded[0].0, "sub");
    assert!(decoded[0].4);
    assert!(decoded[0].1.is_empty());
    assert_eq!(decoded[0].2, 0o755);
    assert_eq!(decoded[1].0, "sub/leaf");
    assert!(!decoded[1].4);
}

#[test]
fn library_tar_path_set_matches_tree() {
    let entries = ten_kib_tree();
    let bytes = build_archive(&entries).unwrap();
    let mut decoded_paths: Vec<String> = read_tar(&bytes).into_iter().map(|e| e.0).collect();
    let mut given_paths: Vec<String> =
        entries.iter().map(|e| entry_path(e).to_string()).collect();
    decoded_paths.sort();
    given_paths.sort();
    assert_eq!(decoded_paths, given_paths);
}

#[test]
fn library_tar_rerun_identical() {
    let entries = ten_kib_tree();
    let first = build_archive(&entries).unwrap();
    let second = build_archive(&entries).unwrap();
    assert_eq!(first, second);
}

#[test]
fn library_tar_handles_long_paths() {
    let deep = "a/".repeat(80) + "leaf.txt";
    let entries = vec![file(&deep, b"deep".to_vec())];
    let bytes = build_archive(&entries).unwrap();
    let decoded = read_tar(&bytes);
    assert_eq!(decoded.len(), 1);
    assert_eq!(decoded[0].0, deep);
    assert_eq!(decoded[0].1, b"deep");
}

#[test]
fn library_tar_rejects_bad_paths() {
    // The archive crate refuses absolute and parent-directory paths; the
    // library reports that as its archive-entry error.
    let absolute = vec![file("/etc/passwd", b"no".to_vec())];
    assert_eq!(build_archive(&absolute), Err(ArchiveError::TarWrite));
    let parent = vec![file("../escape", b"no".to_vec())];
    assert_eq!(build_archive(&parent), Err(ArchiveError::TarWrite));
    assert_eq!(archive_and_compress(&parent), Err(ArchiveError::TarWrite));
}

#[test]
fn empty_tree_archives_to_trailer_only() {
    let bytes = build_archive(&Vec::new()).unwrap();
    // Two trailing zero blocks and nothing else.
    assert_eq!(bytes, vec![0u8; 1024]);
    assert!(read_tar(&bytes).is_empty());
}

#[test]
fn gzip_roundtrip_through_library() {
    let data: Vec<u8> = (0..10_240u32).map(|i| (i % 251) as u8).collect();
    let compressed = gzip_bytes(&data);
    let restored = gunzip_bytes(&compressed).unwrap();
    assert_eq!(restored, data);
}

#[test]
fn gzip_output_is_a_real_stream() {
    let data = b"the same text over and over ".repeat(64);
    let compressed = gzip_bytes(&data);
    assert_ne!(compressed, data);
    // Gzip magic and the header the encoder pins down: deflate method,
    // zero modification time, constant operating-system byte.
    assert_eq!(&compressed[0..4], &[0x1f, 0x8b, 0x08, 0x00]);
    assert_eq!(&compressed[4..8], &[0, 0, 0, 0]);
    assert_eq!(compressed[9], 255);
    // Repetitive input must actually shrink at best compression.
    assert!(compressed.len() < data.len());
}

#[test]
fn gzip_decodes_with_external_decoder() {
    let data: Vec<u8> = (0..4096u32).map(|i| (i * 7 % 256) as u8).collect();
    let compressed = gzip_bytes(&data);
    let mut decoder = flate2::read::GzDecoder::new(compressed.as_slice());
    let mut restored = Vec::new();
    decoder.read_to_end(&mut restored).unwrap();
    assert_eq!(restored, data);
}

#[test]
fn gzip_rerun_identical() {
    let data = b"stable bytes".to_vec();
    assert_eq!(gzip_bytes(&data), gzip_bytes(&data));
}

#[test]
fn gunzip_accepts_externally_produced_stream() {
    let data = b"produced outside the library".to_vec();
    let mut encoder =
        flate2::write::GzEncoder::new(Vec::new(), flate2::Compression::default());
    encoder.write_all(&data).unwrap();
    let compressed = encoder.finish().unwrap();
    let restored = gunzip_bytes(&compressed).unwrap();
    assert_eq!(restored, data);
}

#[test]
fn gunzip_rejects_invalid_stream() {
    let garbage = vec![0x00u8, 0x01, 0x02, 0x03, 0x04];
    assert_eq!(gunzip_bytes(&garbage), Err(ArchiveError::GzipData));
    let truncated = vec![0x1fu8, 0x8b];
    assert_eq!(gunzip_bytes(&truncated), Err(ArchiveError::GzipData));
}

#[test]
fn combined_equals_archive_then_compress() {
    let entries = ten_kib_tree();
    let combined = archive_and_compress(&entries).unwrap();
    let two_step = gzip_bytes(&build_archive(&entries).unwrap());
    assert_eq!(combined, two_step);
}

#[test]
fn ten_kib_tree_scenario() {
    // A fixture tree of about ten kibibytes runs through every library
    // step and comes back byte-identical.
    let entries = ten_kib_tree();
    let total: usize = entries.iter().map(|e| entry_data(e).len()).sum();
    assert!(total >= 10 * 1024);

    // No-compression step: the archive decodes back into the same tree.
    let tar_bytes = build_archive(&entries).unwrap();
    let decoded = read_tar(&tar_bytes);
    for (got, want) in decoded.iter().zip(entries.iter()) {
        assert_eq!(got.0, entry_path(want));
        assert_eq!(got.1, entry_data(want));
        assert_eq!(got.4, entry_is_dir(want));
    }

    // Gzip step: the compressed archive gunzips to the identical tar stream.
    let gz_bytes = gzip_bytes(&tar_bytes);
    let mut decoder = flate2::read::GzDecoder::new(gz_bytes.as_slice());
    let mut restored_tar = Vec::new();
    decoder.read_to_end(&mut restored_tar).unwrap();
    assert_eq!(restored_tar, tar_bytes);

    // Combined step: decompressing and extracting gives the tree back.
    let combined = archive_and_compress(&entries).unwrap();
    let inner_tar = gunzip_bytes(&combined).unwrap();
    let tree = read_tar(&inner_tar);
    assert_eq!(tree.len(), entries.len());
    for (got, want) in tree.iter().zip(entries.iter()) {
        assert_eq!(got.0, entry_path(want));
        assert_eq!(got.1, entry_data(want));
    }
}
