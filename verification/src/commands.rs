//! Shell command lines for the external-tool path.
//!
//! The harness runs the external archiver and compressor through a shell.
//! Building each command line is plain computation and is verified here;
//! launching the subprocess and reading its exit status stay outside the
//! library. Each command is pinned character for character: the tar
//! commands change into the source directory and archive its (non-hidden,
//! shell-globbed) entries, and the compressor writes its best-compression
//! output to standard output, redirected to the destination file.

use vstd::prelude::*;
use vstd::string::StringExecFns;

verus! {

/// The command line that archives a directory with the external tar tool,
/// without compression.
pub open spec fn tar_command_text(dir: Seq<char>, dest: Seq<char>) -> Seq<char> {
    "cd "@ + dir + " && tar -cf "@ + dest + " *"@
}

/// The command line that compresses a file with the external gzip tool at
/// best compression, via standard output.
pub open spec fn gzip_command_text(from: Seq<char>, to: Seq<char>) -> Seq<char> {
    "gzip --best --stdout "@ + from + " > "@ + to
}

/// The command line that archives and compresses a directory with the
/// external tar tool in one operation.
pub open spec fn tar_gzip_command_text(dir: Seq<char>, dest: Seq<char>) -> Seq<char> {
    "cd "@ + dir + " && tar -czf "@ + dest + " *"@
}

/// Build the external tar command: change into `dir`, archive its entries
/// into `dest` with no compression.
pub fn tar_command(dir: &str, dest: &str) -> (out: String)
    ensures
        out@ == tar_command_text(dir@, dest@),
{
    let mut s = String::new();
    s.append("cd ");
    s.append(dir);
    s.append(" && tar -cf ");
    s.append(dest);
    s.append(" *");
    proof {
        assert(s@ =~= tar_command_text(dir@, dest@));
    }
    s
}

/// Build the external gzip command: compress `from` at best compression,
/// redirecting standard output to `to`.
pub fn gzip_command(from: &str, to: &str) -> (out: String)
    ensures
        out@ == gzip_command_text(from@, to@),
{
    let mut s = String::new();
    s.append("gzip --best --stdout ");
    s.append(from);
    s.append(" > ");
    s.append(to);
    proof {
        assert(s@ =~= gzip_command_text(from@, to@));
    }
    s
}

/// Build the external combined command: change into `dir`, archive and
/// gzip its entries into `dest` in one operation.
pub fn tar_gzip_command(dir: &str, dest: &str) -> (out: String)
    ensures
        out@ == tar_gzip_command_text(dir@, dest@),
{
    let mut s = String::new();
    s.append("cd ");
    s.append(dir);
    s.append(" && tar -czf ");
    s.append(dest);
    s.append(" *");
    proof {
        assert(s@ =~= tar_gzip_command_text(dir@, dest@));
    }
    s
}

} // verus!
