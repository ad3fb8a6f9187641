//! Size comparison and verdict text: the reporter of the harness.
//!
//! Two archive files are compared by their exact byte counts; the result is
//! one of three cases, and a verdict line names the smaller file.

use vstd::prelude::*;
use vstd::string::StringExecFns;

verus! {

/// Outcome of comparing two file sizes, exact to the byte.
#[derive(Clone, Copy, Debug, PartialEq, Eq, Structural)]
pub enum SizeComparison {
    /// Both files hold the same number of bytes.
    Equal,
    /// The left file is strictly smaller.
    LeftSmaller,
    /// The right file is strictly smaller.
    RightSmaller,
}

/// Classify two byte counts. The three cases partition all inputs: the
/// result is `Equal` exactly when the counts agree, `LeftSmaller` exactly
/// when the left count is below the right one, and `RightSmaller` exactly
/// when it is above.
pub fn compare_sizes(left: u64, right: u64) -> (r: SizeComparison)
    ensures
        (r == SizeComparison::Equal) <==> (left == right),
        (r == SizeComparison::LeftSmaller) <==> (left < right),
        (r == SizeComparison::RightSmaller) <==> (left > right),
{
    if left == right {
        SizeComparison::Equal
    } else if left < right {
        SizeComparison::LeftSmaller
    } else {
        SizeComparison::RightSmaller
    }
}

/// The text of a verdict line for a given comparison outcome.
pub open spec fn verdict_text(
    r: SizeComparison,
    left: Seq<char>,
    right: Seq<char>,
    note: Seq<char>,
) -> Seq<char> {
    match r {
        SizeComparison::Equal => "## "@ + left + " and "@ + right + " are the SAME size ("@
            + note + ")"@,
        SizeComparison::LeftSmaller => "## "@ + left + " is smaller than "@ + right + " ("@
            + note + ")"@,
        SizeComparison::RightSmaller => "## "@ + right + " is smaller than "@ + left + " ("@
            + note + ")"@,
    }
}

/// Build the human-readable verdict line for a comparison of the file named
/// `left` against the file named `right`, with `note` naming the stage.
pub fn verdict_line(r: SizeComparison, left: &str, right: &str, note: &str) -> (out: String)
    ensures
        out@ == verdict_text(r, left@, right@, note@),
{
    let mut s = String::new();
    match r {
        SizeComparison::Equal => {
            s.append("## ");
            s.append(left);
            s.append(" and ");
            s.append(right);
            s.append(" are the SAME size (");
            s.append(note);
            s.append(")");
        },
        SizeComparison::LeftSmaller => {
            s.append("## ");
            s.append(left);
            s.append(" is smaller than ");
            s.append(right);
            s.append(" (");
            s.append(note);
            s.append(")");
        },
        SizeComparison::RightSmaller => {
            s.append("## ");
            s.append(right);
            s.append(" is smaller than ");
            s.append(left);
            s.append(" (");
            s.append(note);
            s.append(")");
        },
    }
    proof {
        assert(s@ =~= verdict_text(r, left@, right@, note@));
    }
    s
}

} // verus!
