//! Keeping the directory of the roster in step with its repository: what to do
//! at each turn. The work on the repository itself is done elsewhere.

use crate::text::{decimal_text, digits_of};
use vstd::prelude::*;
use vstd::string::StringExecFns;

verus! {

/// Why the roster could not be brought up to date.
#[derive(Debug, Clone, Copy, PartialEq, Eq, Hash)]
pub enum RepositoryManagementError {
    /// The working copy could not be reset.
    HardReset,
    /// The commit of this side was not found.
    CommitFind(&'static str),
    /// The tree of this side could not be written.
    TreeWrite(&'static str),
    /// The tree of this side could not be had.
    TreeGet(&'static str),
    /// The merged tree could not be made.
    TreeGenerate,
    /// The merge could not be analysed.
    Analysis,
    /// The merge failed at the step with this number.
    Merge(usize),
    /// No signature could be had for the commit.
    SignatureGet,
    /// The result could not be checked out.
    Checkout,
    /// Nothing could be fetched.
    Fetch,
    /// The reference to what was fetched was not found.
    ReferenceFind,
    /// This reference names no commit.
    Sublimate(&'static str),
    /// The head of this side could not be had.
    HeadGetFail(&'static str),
    /// The revision could not be read.
    RevisionParse,
}

impl RepositoryManagementError {
    /// The text that reports the error.
    pub open spec fn message_of(self) -> Seq<char> {
        match self {
            RepositoryManagementError::HardReset => "failed hard reset."@,
            RepositoryManagementError::CommitFind(which) => "cannot find "@ + which@ + " commit."@,
            RepositoryManagementError::TreeWrite(which) => "cannot get "@ + which@ + " tree."@,
            RepositoryManagementError::TreeGet(which) => "cannot get "@ + which@ + " tree."@,
            RepositoryManagementError::TreeGenerate => "cannot generate tree."@,
            RepositoryManagementError::Analysis => "cannot analysis repository."@,
            RepositoryManagementError::Merge(line) => "cannot merge. from line: "@ + digits_of(
                line as nat,
            ),
            RepositoryManagementError::SignatureGet => "cannot get"@,
            RepositoryManagementError::Checkout => "cannot check out."@,
            RepositoryManagementError::Fetch => "cannot fetch."@,
            RepositoryManagementError::ReferenceFind => "cannot find reference"@,
            RepositoryManagementError::Sublimate(which) => which@
                + " cannot sublimate annotated commit."@,
            RepositoryManagementError::HeadGetFail(which) => "cannot get "@ + which@ + " head"@,
            RepositoryManagementError::RevisionParse => "cannot rev parse"@,
        }
    }

    /// The text that reports the error.
    pub fn message(&self) -> (r: String)
        ensures
            r@ == self.message_of(),
    {
        match self {
            RepositoryManagementError::HardReset => String::from_str("failed hard reset."),
            RepositoryManagementError::CommitFind(which) => framed("cannot find ", which, " commit."),
            RepositoryManagementError::TreeWrite(which) => framed("cannot get ", which, " tree."),
            RepositoryManagementError::TreeGet(which) => framed("cannot get ", which, " tree."),
            RepositoryManagementError::TreeGenerate => String::from_str("cannot generate tree."),
            RepositoryManagementError::Analysis => String::from_str("cannot analysis repository."),
            RepositoryManagementError::Merge(line) => {
                let number = decimal_text(*line as u64);
                paired("cannot merge. from line: ", number.as_str())
            },
            RepositoryManagementError::SignatureGet => String::from_str("cannot get"),
            RepositoryManagementError::Checkout => String::from_str("cannot check out."),
            RepositoryManagementError::Fetch => String::from_str("cannot fetch."),
            RepositoryManagementError::ReferenceFind => String::from_str("cannot find reference"),
            RepositoryManagementError::Sublimate(which) => paired(
                which,
                " cannot sublimate annotated commit.",
            ),
            RepositoryManagementError::HeadGetFail(which) => framed("cannot get ", which, " head"),
            RepositoryManagementError::RevisionParse => String::from_str("cannot rev parse"),
        }
    }
}

fn paired(before: &str, after: &str) -> (r: String)
    ensures
        r@ == before@ + after@,
{
    let mut whole = String::from_str(before);
    whole.append(after);
    whole
}

fn framed(before: &str, text: &str, after: &str) -> (r: String)
    ensures
        r@ == before@ + text@ + after@,
{
    let mut whole = paired(before, text);
    whole.append(after);
    whole
}

/// How to come by the working copy.
#[derive(Debug, Clone, Copy, PartialEq, Eq, Hash)]
pub enum Checkout {
    /// Clone the repository into the directory.
    Clone,
    /// Open the working copy in the directory.
    Open,
}

/// How to come by the working copy: the repository is cloned where the
/// directory of the roster is there and holds no working copy, and opened
/// otherwise.
pub fn plan_checkout(directory_exists: bool, working_copy_exists: bool) -> (r: Checkout)
    ensures
        r == if directory_exists && !working_copy_exists {
            Checkout::Clone
        } else {
            Checkout::Open
        },
{
    if directory_exists && !working_copy_exists {
        Checkout::Clone
    } else {
        Checkout::Open
    }
}

/// What to do with what was fetched.
#[derive(Debug, Clone, Copy, PartialEq, Eq, Hash)]
pub enum Update {
    /// The working copy could be moved forward, which is not done: there is
    /// no way on from here.
    FastForward,
    /// Merge what was fetched into the working copy.
    Merge,
    /// Leave the working copy as it is.
    Nothing,
}

/// What to do with what was fetched, from what the analysis of the merge says.
pub fn plan_update(fast_forward: bool, normal: bool) -> (r: Update)
    ensures
        r == if fast_forward {
            Update::FastForward
        } else if normal {
            Update::Merge
        } else {
            Update::Nothing
        },
{
    if fast_forward {
        Update::FastForward
    } else if normal {
        Update::Merge
    } else {
        Update::Nothing
    }
}

/// How to end a merge.
#[derive(Debug, Clone, Copy, PartialEq, Eq, Hash)]
pub enum MergeEnd {
    /// Check the merged index out and leave the conflicts to be seen.
    CheckoutIndex,
    /// Commit the merge and check it out.
    Commit,
}

/// How to end a merge: it is committed unless it has conflicts.
pub fn plan_merge_end(has_conflicts: bool) -> (r: MergeEnd)
    ensures
        r == if has_conflicts {
            MergeEnd::CheckoutIndex
        } else {
            MergeEnd::Commit
        },
{
    if has_conflicts {
        MergeEnd::CheckoutIndex
    } else {
        MergeEnd::Commit
    }
}

/// The message of the commit that merges `remote` into `local`.
pub fn merge_message(remote: &str, local: &str) -> (r: String)
    ensures
        r@ == "Merge: "@ + remote@ + " into "@ + local@,
{
    let mut text = String::from_str("Merge: ");
    text.append(remote);
    text.append(" into ");
    text.append(local);
    text
}

} // verus!
