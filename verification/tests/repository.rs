use salmon::repository::{
    merge_message, plan_checkout, plan_merge_end, plan_update, Checkout, MergeEnd,
    RepositoryManagementError, Update,
};

#[test]
fn the_repository_is_cloned_into_a_directory_without_working_copy() {
    assert_eq!(plan_checkout(true, false), Checkout::Clone);
    assert_eq!(plan_checkout(true, true), Checkout::Open);
    assert_eq!(plan_checkout(false, false), Checkout::Open);
    assert_eq!(plan_checkout(false, true), Checkout::Open);
}

#[test]
fn what_was_fetched_is_merged_or_left() {
    assert_eq!(plan_update(true, false), Update::FastForward);
    assert_eq!(plan_update(true, true), Update::FastForward);
    assert_eq!(plan_update(false, true), Update::Merge);
    assert_eq!(plan_update(false, false), Update::Nothing);
}

#[test]
fn a_merge_with_conflicts_is_not_committed() {
    assert_eq!(plan_merge_end(true), MergeEnd::CheckoutIndex);
    assert_eq!(plan_merge_end(false), MergeEnd::Commit);
}

#[test]
fn the_merge_message_names_both_commits() {
    assert_eq!(merge_message("abc123", "def456"), "Merge: abc123 into def456");
    assert_eq!(merge_message("", ""), "Merge:  into ");
}

#[test]
fn errors_are_told_apart() {
    assert_ne!(RepositoryManagementError::Merge(98), RepositoryManagementError::Merge(103));
    assert_eq!(
        RepositoryManagementError::CommitFind("local"),
        RepositoryManagementError::CommitFind("local")
    );
    assert_ne!(RepositoryManagementError::TreeGet("local"), RepositoryManagementError::TreeWrite("local"));
}

#[test]
fn repository_errors_report_themselves() {
    assert_eq!(RepositoryManagementError::HardReset.message(), "failed hard reset.");
    assert_eq!(RepositoryManagementError::CommitFind("local").message(), "cannot find local commit.");
    assert_eq!(RepositoryManagementError::TreeWrite("remote").message(), "cannot get remote tree.");
    assert_eq!(RepositoryManagementError::TreeGet("predecessor").message(), "cannot get predecessor tree.");
    assert_eq!(RepositoryManagementError::TreeGenerate.message(), "cannot generate tree.");
    assert_eq!(RepositoryManagementError::Analysis.message(), "cannot analysis repository.");
    assert_eq!(RepositoryManagementError::Merge(98).message(), "cannot merge. from line: 98");
    assert_eq!(RepositoryManagementError::Merge(0).message(), "cannot merge. from line: 0");
    assert_eq!(RepositoryManagementError::Merge(145).message(), "cannot merge. from line: 145");
    assert_eq!(RepositoryManagementError::SignatureGet.message(), "cannot get");
    assert_eq!(RepositoryManagementError::Checkout.message(), "cannot check out.");
    assert_eq!(RepositoryManagementError::Fetch.message(), "cannot fetch.");
    assert_eq!(RepositoryManagementError::ReferenceFind.message(), "cannot find reference");
    assert_eq!(
        RepositoryManagementError::Sublimate("head_reference").message(),
        "head_reference cannot sublimate annotated commit."
    );
    assert_eq!(RepositoryManagementError::HeadGetFail("local").message(), "cannot get local head");
    assert_eq!(RepositoryManagementError::RevisionParse.message(), "cannot rev parse");
}
