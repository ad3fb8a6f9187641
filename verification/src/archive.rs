//! In-memory tar archiving and gzip compression.
//!
//! The harness hands the library a source tree as plain values: a list of
//! entries, each a regular file with its contents or a directory, with its
//! relative path, permission mode and modification time. The library turns
//! that list into a tar archive and a gzip stream by calling the archive
//! and compression crates through trusted wrappers; everything around the
//! calls — the entry loop, the error mapping, the composition of archiving
//! with compression — is verified. Reading the tree from disk, writing the
//! outputs and the external-tool path stay outside the library.

use vstd::prelude::*;

verus! {

/// One entry of the source tree as the archive sees it, under its
/// relative path: a regular file with its contents, or a directory.
pub enum TreeEntry {
    File { path: String, data: Vec<u8>, mode: u32, mtime: u64 },
    Directory { path: String, mode: u32, mtime: u64 },
}

impl View for TreeEntry {
    type V = (Seq<char>, Seq<u8>, u32, u64, bool);

    open spec fn view(&self) -> Self::V {
        match self {
            TreeEntry::File { path, data, mode, mtime } => (path@, data@, *mode, *mtime, false),
            TreeEntry::Directory { path, mode, mtime } => (
                path@,
                Seq::<u8>::empty(),
                *mode,
                *mtime,
                true,
            ),
        }
    }
}

/// The mathematical value of a whole entry list.
pub open spec fn entries_view(entries: Seq<TreeEntry>) -> Seq<(Seq<char>, Seq<u8>, u32, u64, bool)> {
    entries.map_values(|e: TreeEntry| e@)
}

/// What can go wrong while producing an archive in memory.
#[derive(Clone, Copy, Debug, PartialEq, Eq, Structural)]
pub enum ArchiveError {
    /// The archive crate refused an entry's path.
    TarWrite,
    /// The input is not a valid gzip stream.
    GzipData,
}

#[verifier::external_type_specification]
#[verifier::external_body]
pub struct ExIoError(std::io::Error);

/// An in-memory archive under construction. Holds the archive crate's
/// builder over a byte buffer; Verus sees it only through `tar_contents`.
#[verifier::external_body]
pub struct TarWriter {
    inner: tar::Builder<Vec<u8>>,
}

/// The entries appended so far to an in-memory archive builder, in order.
pub uninterp spec fn tar_contents(b: TarWriter) -> Seq<(Seq<char>, Seq<u8>, u32, u64, bool)>;

/// The tar serialization of an entry list: the bytes the archive crate
/// writes for exactly those entries, in that order, with the fixed header
/// layout the wrappers below use.
pub uninterp spec fn tar_encoding(entries: Seq<(Seq<char>, Seq<u8>, u32, u64, bool)>) -> Seq<u8>;

/// Whether the archive crate accepts a path for an archive entry. Its
/// validation depends on the path alone: it refuses an empty or absolute
/// path and one holding a parent-directory component or a nul byte, and
/// accepts the rest.
pub uninterp spec fn tar_path_ok(path: Seq<char>) -> bool;

/// The gzip stream the compression crate produces for the given bytes at
/// best compression.
pub uninterp spec fn gzip_encoding(data: Seq<u8>) -> Seq<u8>;

/// What the gzip decoder yields for the given bytes: the decompressed
/// payload of a valid stream, nothing for an invalid one.
pub uninterp spec fn gzip_decoding(data: Seq<u8>) -> Option<Seq<u8>>;

/// Relies on `tar::Builder::new`: a fresh builder over an empty in-memory
/// buffer holds no entries.
#[verifier::external_body]
fn tar_builder_new() -> (b: TarWriter)
    ensures
        tar_contents(b) == Seq::<(Seq<char>, Seq<u8>, u32, u64, bool)>::empty(),
{
    TarWriter { inner: tar::Builder::new(Vec::new()) }
}

/// Relies on `tar::Builder::append_data`: it validates the path before
/// writing anything, succeeds exactly when the path is acceptable (into a
/// buffer nothing else can fail), and on success appends one regular-file
/// entry — a GNU header carrying the size of the contents and the given
/// mode and modification time as the crate encodes them, then the
/// contents. What is appended is a function of the arguments alone.
#[verifier::external_body]
fn tar_append_file(
    b: &mut TarWriter,
    path: &str,
    data: &Vec<u8>,
    mode: u32,
    mtime: u64,
) -> (r: Result<(), std::io::Error>)
    ensures
        r is Ok <==> tar_path_ok(path@),
        r is Ok ==> tar_contents(*final(b)) == tar_contents(*old(b)).push(
            (path@, data@, mode, mtime, false),
        ),
{
    let mut header = tar::Header::new_gnu();
    header.set_size(data.len() as u64);
    header.set_mode(mode);
    header.set_mtime(mtime);
    b.inner.append_data(&mut header, path, data.as_slice())
}

/// Relies on `tar::Builder::append_data` as `tar_append_file` does, with
/// a directory header and no contents: the same path validation decides
/// success, and on success one directory entry is appended.
#[verifier::external_body]
fn tar_append_dir(b: &mut TarWriter, path: &str, mode: u32, mtime: u64) -> (r: Result<
    (),
    std::io::Error,
>)
    ensures
        r is Ok <==> tar_path_ok(path@),
        r is Ok ==> tar_contents(*final(b)) == tar_contents(*old(b)).push(
            (path@, Seq::<u8>::empty(), mode, mtime, true),
        ),
{
    let mut header = tar::Header::new_gnu();
    header.set_entry_type(tar::EntryType::dir());
    header.set_size(0);
    header.set_mode(mode);
    header.set_mtime(mtime);
    b.inner.append_data(&mut header, path, std::io::empty())
}

/// Relies on `tar::Builder::into_inner`: it finishes the archive (two
/// trailing zero blocks) and returns the buffer, which then holds the
/// serialization of exactly the entries appended so far. Finishing into a
/// `Vec` cannot fail.
#[verifier::external_body]
fn tar_into_bytes(b: TarWriter) -> (r: Vec<u8>)
    ensures
        r@ == tar_encoding(tar_contents(b)),
{
    b.inner.into_inner().expect("a Vec accepts all writes")
}

/// Relies on `flate2::write::GzEncoder` at best compression: its output
/// is a function of the input bytes alone (the header it writes is fixed:
/// zero modification time and a constant operating-system byte, as the
/// crate's source shows), and gzip is lossless, so the output decodes
/// back to the input. Writing into a `Vec` cannot fail.
#[verifier::external_body]
fn gzip_raw(data: &Vec<u8>) -> (r: Vec<u8>)
    ensures
        r@ == gzip_encoding(data@),
        gzip_decoding(r@) == Some(data@),
{
    let mut enc = flate2::write::GzEncoder::new(Vec::new(), flate2::Compression::best());
    std::io::Write::write_all(&mut enc, data.as_slice()).expect("a Vec accepts all writes");
    enc.finish().expect("a Vec accepts all writes")
}

/// Relies on `flate2::read::GzDecoder`: reading it to the end yields the
/// decompressed payload of a valid gzip stream and fails exactly on an
/// invalid one.
#[verifier::external_body]
fn gunzip_raw(data: &Vec<u8>) -> (r: Result<Vec<u8>, std::io::Error>)
    ensures
        match r {
            Ok(v) => gzip_decoding(data@) == Some(v@),
            Err(_) => gzip_decoding(data@) is None,
        },
{
    let mut dec = flate2::read::GzDecoder::new(data.as_slice());
    let mut out = Vec::new();
    match std::io::Read::read_to_end(&mut dec, &mut out) {
        Ok(_) => Ok(out),
        Err(e) => Err(e),
    }
}

/// Law: extraction is deterministic. What a fixture's bytes decode to is
/// a function of those bytes alone, so two runs over the same fixture
/// start from byte-identical trees.
pub proof fn lemma_extraction_deterministic(first: Seq<u8>, second: Seq<u8>)
    requires
        first == second,
    ensures
        gzip_decoding(first) == gzip_decoding(second),
{
}

/// Produce the uncompressed tar archive of the given entries. Succeeds
/// exactly when the archive crate accepts every entry's path, and the
/// result is then exactly the serialization of that entry list, so two
/// runs over the same tree give byte-identical archives.
pub fn build_archive(entries: &Vec<TreeEntry>) -> (r: Result<Vec<u8>, ArchiveError>)
    ensures
        r is Ok <==> (forall|j: int|
            0 <= j < entries@.len() ==> #[trigger] tar_path_ok(entries@[j]@.0)),
        r matches Ok(bytes) ==> bytes@ == tar_encoding(entries_view(entries@)),
        r matches Err(e) ==> e == ArchiveError::TarWrite,
{
    let mut b = tar_builder_new();
    let mut i: usize = 0;
    while i < entries.len()
        invariant
            i <= entries.len(),
            tar_contents(b) == entries_view(entries@.subrange(0, i as int)),
            forall|j: int| 0 <= j < i ==> #[trigger] tar_path_ok(entries@[j]@.0),
        decreases entries.len() - i,
    {
        let appended = match &entries[i] {
            TreeEntry::File { path, data, mode, mtime } => tar_append_file(
                &mut b,
                path.as_str(),
                data,
                *mode,
                *mtime,
            ),
            TreeEntry::Directory { path, mode, mtime } => tar_append_dir(
                &mut b,
                path.as_str(),
                *mode,
                *mtime,
            ),
        };
        match appended {
            Ok(_) => {},
            Err(_) => {
                proof {
                    assert(!tar_path_ok(entries@[i as int]@.0));
                }
                return Err(ArchiveError::TarWrite);
            },
        }
        i = i + 1;
        proof {
            assert(entries@.subrange(0, i as int) =~= entries@.subrange(0, i - 1).push(
                entries@[i - 1],
            ));
            assert(entries_view(entries@.subrange(0, i as int)) =~= entries_view(
                entries@.subrange(0, i - 1),
            ).push(entries@[i - 1]@));
        }
    }
    proof {
        assert(entries@.subrange(0, entries@.len() as int) =~= entries@);
    }
    Ok(tar_into_bytes(b))
}

/// Compress bytes as a gzip stream at best compression. The output is a
/// function of the input alone, and decoding it gives the input back.
pub fn gzip_bytes(data: &Vec<u8>) -> (r: Vec<u8>)
    ensures
        r@ == gzip_encoding(data@),
        gzip_decoding(r@) == Some(data@),
{
    gzip_raw(data)
}

/// Decompress a gzip stream. Succeeds with the decoded payload exactly
/// when the bytes decode as gzip, and reports invalid data otherwise.
pub fn gunzip_bytes(data: &Vec<u8>) -> (r: Result<Vec<u8>, ArchiveError>)
    ensures
        match r {
            Ok(v) => gzip_decoding(data@) == Some(v@),
            Err(e) => gzip_decoding(data@) is None && e == ArchiveError::GzipData,
        },
{
    match gunzip_raw(data) {
        Ok(v) => Ok(v),
        Err(_) => Err(ArchiveError::GzipData),
    }
}

/// Produce the compressed archive of the given entries in one pass.
/// Succeeds exactly when the archive crate accepts every entry's path; the
/// result is then exactly the gzip stream of the tar serialization of the
/// entry list — the same bytes as building the archive and then
/// compressing it — and it decodes back to that archive.
pub fn archive_and_compress(entries: &Vec<TreeEntry>) -> (r: Result<Vec<u8>, ArchiveError>)
    ensures
        r is Ok <==> (forall|j: int|
            0 <= j < entries@.len() ==> #[trigger] tar_path_ok(entries@[j]@.0)),
        r matches Ok(bytes) ==> {
            &&& bytes@ == gzip_encoding(tar_encoding(entries_view(entries@)))
            &&& gzip_decoding(bytes@) == Some(tar_encoding(entries_view(entries@)))
        },
        r matches Err(e) ==> e == ArchiveError::TarWrite,
{
    match build_archive(entries) {
        Ok(tar_bytes) => Ok(gzip_bytes(&tar_bytes)),
        Err(e) => Err(e),
    }
}

} // verus!
