use std::collections::VecDeque;
use std::path::PathBuf;

use cedilla::dialogs::{DialogAction, DialogOutcome, DialogPage};

type Pages = VecDeque<DialogPage<u32>>;

#[test]
fn opening_puts_a_dialog_behind_the_others() {
    let mut pages: Pages = VecDeque::new();
    assert_eq!(DialogAction::OpenNewVaultFileDialog.execute(&mut pages), DialogOutcome::FocusInput);
    assert_eq!(DialogAction::OpenDeleteNodeDialog(4).execute(&mut pages), DialogOutcome::Nothing);
    assert_eq!(DialogAction::OpenRenameNodeDialog(5).execute(&mut pages), DialogOutcome::FocusInput);
    assert_eq!(DialogAction::OpenMoveNodeDialog(6).execute(&mut pages), DialogOutcome::Nothing);
    assert_eq!(DialogAction::OpenNewVaultFolderDialog.execute(&mut pages), DialogOutcome::FocusInput);
    assert_eq!(
        pages,
        VecDeque::from(vec![
            DialogPage::NewVaultFile(String::new()),
            DialogPage::DeleteNode(4),
            DialogPage::RenameNode(5, String::new()),
            DialogPage::MoveNode(6, None),
            DialogPage::NewVaultFolder(String::new()),
        ])
    );
}

#[test]
fn confirming_asks_for_what_the_dialog_was_about() {
    let confirm = |page: DialogPage<u32>| {
        let mut pages: Pages = VecDeque::from(vec![page, DialogPage::DeleteNode(9)]);
        let outcome = DialogAction::DialogComplete.execute(&mut pages);
        assert_eq!(pages, VecDeque::from(vec![DialogPage::DeleteNode(9)]));
        outcome
    };
    assert_eq!(
        confirm(DialogPage::NewVaultFile(String::from("a"))),
        DialogOutcome::NewVaultFile(String::from("a"))
    );
    assert_eq!(confirm(DialogPage::NewVaultFile(String::new())), DialogOutcome::Nothing);
    assert_eq!(
        confirm(DialogPage::NewVaultFolder(String::from("d"))),
        DialogOutcome::NewVaultFolder(String::from("d"))
    );
    assert_eq!(confirm(DialogPage::NewVaultFolder(String::new())), DialogOutcome::Nothing);
    assert_eq!(confirm(DialogPage::DeleteNode(3)), DialogOutcome::DeleteNode(3));
    assert_eq!(
        confirm(DialogPage::RenameNode(3, String::from("n"))),
        DialogOutcome::RenameNode(3, String::from("n"))
    );
    assert_eq!(confirm(DialogPage::RenameNode(3, String::new())), DialogOutcome::Nothing);
    assert_eq!(
        confirm(DialogPage::MoveNode(3, Some(PathBuf::from("/v/d")))),
        DialogOutcome::MoveNode(3, PathBuf::from("/v/d"))
    );
    assert_eq!(confirm(DialogPage::MoveNode(3, None)), DialogOutcome::Nothing);
}

#[test]
fn confirming_and_cancelling_nothing_does_nothing() {
    let mut pages: Pages = VecDeque::new();
    assert_eq!(DialogAction::DialogComplete.execute(&mut pages), DialogOutcome::Nothing);
    assert_eq!(DialogAction::DialogCancel.execute(&mut pages), DialogOutcome::Nothing);
    assert!(pages.is_empty());
}

#[test]
fn cancelling_closes_the_open_dialog() {
    let mut pages: Pages =
        VecDeque::from(vec![DialogPage::DeleteNode(1), DialogPage::DeleteNode(2)]);
    assert_eq!(DialogAction::DialogCancel.execute(&mut pages), DialogOutcome::Nothing);
    assert_eq!(pages, VecDeque::from(vec![DialogPage::DeleteNode(2)]));
}

#[test]
fn a_change_replaces_the_open_dialog() {
    let mut pages: Pages =
        VecDeque::from(vec![DialogPage::NewVaultFile(String::new()), DialogPage::DeleteNode(2)]);
    let typed = DialogPage::NewVaultFile(String::from("no"));
    assert_eq!(DialogAction::DialogUpdate(typed.clone()).execute(&mut pages), DialogOutcome::Nothing);
    assert_eq!(pages, VecDeque::from(vec![typed, DialogPage::DeleteNode(2)]));
}
