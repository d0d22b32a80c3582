use vstd::prelude::*;
use vstd::string::StrSliceExecFns;

use crate::invocation::Invocation;
use crate::steps::{branch_query, spec_branch_query};

verus! {

/// What resolving a push or pull target yields: either the explicit
/// override, taken verbatim and involving no external call, or the single
/// capture-mode invocation that asks the tool for the currently checked-out
/// branch.
#[derive(Clone, Debug, PartialEq)]
pub enum BranchResolution {
    Resolved(String),
    Query(Invocation),
}

/// Resolves a branch override. An explicit branch is returned verbatim —
/// no invocation of any kind is produced. Without one, the result directs
/// the caller to exactly one capture invocation, the current-branch query,
/// whose output `branch_from_output` then decodes.
pub fn get_branch(branch: Option<&str>) -> (r: BranchResolution)
    ensures
        branch matches Some(b) ==> (r matches BranchResolution::Resolved(x) && x@ == b@),
        branch is None ==> (r matches BranchResolution::Query(i) && i@ == spec_branch_query()),
{
    match branch {
        Some(b) => BranchResolution::Resolved(b.to_owned()),
        None => BranchResolution::Query(branch_query()),
    }
}

/// Captured output with exactly one trailing newline stripped — and nothing
/// else: text without a trailing newline is kept whole, and only a single
/// newline is ever removed.
pub open spec fn spec_strip_newline(s: Seq<char>) -> Seq<char> {
    if s.len() > 0 && s.last() == '\n' {
        s.drop_last()
    } else {
        s
    }
}

/// Decodes a captured branch line: the queried value occupies a single
/// line, so the result is the captured text with exactly one trailing
/// newline stripped.
pub fn branch_from_output(captured: &str) -> (r: String)
    ensures
        r@ == spec_strip_newline(captured@),
{
    let n = captured.unicode_len();
    if n > 0 && captured.get_char(n - 1) == '\n' {
        let r = captured.substring_char(0, n - 1).to_owned();
        proof {
            assert(r@ =~= spec_strip_newline(captured@));
        }
        r
    } else {
        captured.to_owned()
    }
}

} // verus!
