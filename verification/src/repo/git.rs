//! The decisions of keeping a clone of the plugin repository up to date. The
//! caller talks to git; what it finds decides what is done next.

use vstd::prelude::*;
use vstd::string::*;

verus! {

pub const DEFAULT_BRANCH: &'static str = "master";

pub const DEFAULT_REMOTE: &'static str = "origin";

pub const DEFAULT_REPO_URL: &'static str = "https://github.com/sm-pkg/plugins.git";

/// What is fetched on a pull: every branch of the remote, forced.
pub const FETCH_REFSPEC: &'static str = "+refs/heads/*:refs/remotes/origin/*";

/// How a clone is had.
#[derive(Debug, Clone, Copy, PartialEq, Eq, Structural)]
pub enum Opening {
    /// The directory exists and is opened as a repository.
    Existing,
    /// The directory is missing and the repository is cloned into it.
    Clone,
}

/// How the clone at a path is had, given whether the path exists.
pub fn opening(path_exists: bool) -> (r: Opening)
    ensures
        r == if path_exists {
            Opening::Existing
        } else {
            Opening::Clone
        },
{
    if path_exists {
        Opening::Existing
    } else {
        Opening::Clone
    }
}

/// What is done with the commit that was fetched.
#[derive(Debug, Clone, Copy, PartialEq, Eq, Structural)]
pub enum MergeAction {
    /// The local branch is moved forward to the commit.
    FastForward,
    /// The commit is merged into the local branch with a merge commit.
    Normal,
    /// The local branch is up to date.
    Nothing,
}

/// What is done with the commit that was fetched, given what the analysis
/// of the merge says. A fast-forward is taken where it is possible.
pub fn merge_action(fast_forward: bool, normal: bool) -> (r: MergeAction)
    ensures
        r == if fast_forward {
            MergeAction::FastForward
        } else if normal {
            MergeAction::Normal
        } else {
            MergeAction::Nothing
        },
{
    if fast_forward {
        MergeAction::FastForward
    } else if normal {
        MergeAction::Normal
    } else {
        MergeAction::Nothing
    }
}

/// Why a pull stopped.
#[derive(Debug, Clone, Copy, PartialEq, Eq, Structural)]
pub enum GitError {
    /// The merge has conflicts, which are not resolved here.
    MergeConflicts,
}

impl GitError {
    pub open spec fn text(self) -> Seq<char> {
        "Merge conflicts detected"@
    }

    /// The message shown for the error.
    pub fn message(&self) -> (r: String)
        ensures
            r@ == self.text(),
    {
        String::from_str("Merge conflicts detected")
    }
}

/// Whether a merge is written out, given whether it has conflicts.
pub fn merge_outcome(has_conflicts: bool) -> (r: Result<(), GitError>)
    ensures
        r is Err == has_conflicts,
        r matches Err(e) ==> e == GitError::MergeConflicts,
{
    if has_conflicts {
        Err(GitError::MergeConflicts)
    } else {
        Ok(())
    }
}

/// Whether the work tree is reset before a pull: whether some file is not
/// in the state of the last commit. `current[i]` says whether file `i` is.
pub fn needs_reset(current: &Vec<bool>) -> (r: bool)
    ensures
        r == exists|i: int| 0 <= i < current.len() && !current[i],
{
    let mut i: usize = 0;
    while i < current.len()
        invariant
            i <= current.len(),
            forall|k: int| 0 <= k < i ==> current[k],
        decreases current.len() - i,
    {
        if !current[i] {
            return true;
        }
        i += 1;
    }
    false
}

/// The full name of a local branch.
pub fn branch_ref(branch: &str) -> (r: String)
    ensures
        r@ == "refs/heads/"@ + branch@,
{
    let mut r = String::from_str("refs/heads/");
    r.append(branch);
    r
}

/// The message of a merge commit.
pub fn merge_message(source: &str, destination: &str) -> (r: String)
    ensures
        r@ == "Merge: "@ + source@ + " into "@ + destination@,
{
    let mut r = String::from_str("Merge: ");
    r.append(source);
    r.append(" into ");
    r.append(destination);
    r
}

/// The reflog message of a fast-forward.
pub fn fast_forward_message(branch_ref: &str, commit: &str) -> (r: String)
    ensures
        r@ == "Fast forwarding: Setting "@ + branch_ref@ + " to id: "@ + commit@,
{
    let mut r = String::from_str("Fast forwarding: Setting ");
    r.append(branch_ref);
    r.append(" to id: ");
    r.append(commit);
    r
}

} // verus!
