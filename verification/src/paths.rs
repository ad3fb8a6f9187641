//! Path construction for a benchmark run.
//!
//! The harness is handed the workspace root as plain text and derives every
//! path from it: the fixtures directory, the scratch area, and the per-run
//! output files. Joining appends a single separator unless the base already
//! ends with one, as a path push does.

use vstd::prelude::*;
use vstd::string::StringExecFns;
use vstd::string::StrSliceExecFns;

use crate::timestamp::Timestamp;

verus! {

/// The text of `base` with the component `name` joined to it: `name`
/// alone when the base is empty, otherwise the base, a separator unless
/// the base already ends with one, and the component.
pub open spec fn joined(base: Seq<char>, name: Seq<char>) -> Seq<char> {
    if base.len() == 0 {
        name
    } else if base.last() == '/' {
        base + name
    } else {
        base + seq!['/'] + name
    }
}

/// Join one path component onto a base path.
pub fn join_path(base: &str, name: &str) -> (out: String)
    ensures
        out@ == joined(base@, name@),
{
    let n = base.unicode_len();
    if n == 0 {
        String::from_str(name)
    } else if base.get_char(n - 1) == '/' {
        let mut s = String::from_str(base);
        s.append(name);
        s
    } else {
        let mut s = String::from_str(base);
        s.append("/");
        s.append(name);
        proof {
            reveal_strlit("/");
            assert(s@ =~= joined(base@, name@));
        }
        s
    }
}

/// The workspace root as the harness was given it: every other path is
/// derived from this one.
pub fn workspace_path(root: &str) -> (out: String)
    ensures
        out@ == root@,
{
    String::from_str(root)
}

/// The directory holding the pre-supplied fixture archives.
pub fn fixture_path(root: &str) -> (out: String)
    ensures
        out@ == joined(root@, "fixtures"@),
{
    join_path(root, "fixtures")
}

/// The scratch area under which each run writes its own directory.
pub fn tmp_path(root: &str) -> (out: String)
    ensures
        out@ == joined(root@, "tmp"@),
{
    join_path(root, "tmp")
}

/// The scratch directory of one run: the scratch area joined with the
/// run's timestamp name.
pub open spec fn scratch_dir_text(root: Seq<char>, ts: Timestamp) -> Seq<char> {
    joined(joined(root, "tmp"@), ts.text())
}

/// Build the scratch directory path for the run that started at `ts`.
pub fn scratch_dir(root: &str, ts: &Timestamp) -> (out: String)
    ensures
        out@ == scratch_dir_text(root@, *ts),
{
    let tmp = tmp_path(root);
    let name = ts.dir_name();
    join_path(tmp.as_str(), name.as_str())
}

/// Law: a run's scratch directory determines the moment it started. Under
/// one scratch area, two well-formed timestamps with the same scratch path
/// are the same moment — so runs started at different moments write into
/// different directories.
pub proof fn lemma_scratch_dir_determines_timestamp(root: Seq<char>, t1: Timestamp, t2: Timestamp)
    requires
        t1.wf(),
        t2.wf(),
        scratch_dir_text(root, t1) == scratch_dir_text(root, t2),
    ensures
        t1 == t2,
{
    let base = joined(root, "tmp"@);
    let s1 = scratch_dir_text(root, t1);
    if base.len() == 0 {
        assert(t1.text() == t2.text());
    } else if base.last() == '/' {
        assert(s1.len() == base.len() + t1.text().len());
        assert(t1.text() =~= s1.subrange(base.len() as int, s1.len() as int));
        assert(t2.text() =~= s1.subrange(base.len() as int, s1.len() as int));
    } else {
        assert(s1.len() == base.len() + 1 + t1.text().len());
        assert(t1.text() =~= s1.subrange(base.len() as int + 1, s1.len() as int));
        assert(t2.text() =~= s1.subrange(base.len() as int + 1, s1.len() as int));
    }
    crate::timestamp::lemma_dir_name_injective(t1, t2);
}

/// Every path of one benchmark run, derived from the scratch directory:
/// the extracted source tree and the six output archives.
pub struct RunPaths {
    pub source_dir: String,
    pub library_tar: String,
    pub system_tar: String,
    pub library_tar_gz: String,
    pub system_tar_gz: String,
    pub library_combined: String,
    pub system_combined: String,
}

impl RunPaths {
    /// Each field is the scratch directory joined with that output's
    /// fixed file name.
    pub open spec fn wf(self, scratch: Seq<char>) -> bool {
        &&& self.source_dir@ == joined(scratch, "source"@)
        &&& self.library_tar@ == joined(scratch, "rust_no_compression_tar.tar"@)
        &&& self.system_tar@ == joined(scratch, "system_no_compression_tar.tar"@)
        &&& self.library_tar_gz@ == joined(scratch, "rust_gzip_a_tar.tar.gz"@)
        &&& self.system_tar_gz@ == joined(scratch, "system_gzip_a_tar.tar.gz"@)
        &&& self.library_combined@ == joined(scratch, "rust_tar_gzip_one_operation.tar.gz"@)
        &&& self.system_combined@ == joined(scratch, "system_tar_gzip_one_operation.tar.gz"@)
    }

    /// Derive all output paths of the run rooted at `scratch`.
    pub fn new(scratch: &str) -> (r: RunPaths)
        ensures
            r.wf(scratch@),
    {
        RunPaths {
            source_dir: join_path(scratch, "source"),
            library_tar: join_path(scratch, "rust_no_compression_tar.tar"),
            system_tar: join_path(scratch, "system_no_compression_tar.tar"),
            library_tar_gz: join_path(scratch, "rust_gzip_a_tar.tar.gz"),
            system_tar_gz: join_path(scratch, "system_gzip_a_tar.tar.gz"),
            library_combined: join_path(scratch, "rust_tar_gzip_one_operation.tar.gz"),
            system_combined: join_path(scratch, "system_tar_gzip_one_operation.tar.gz"),
        }
    }
}

} // verus!
