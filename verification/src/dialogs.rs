//! The dialogs of the application: which dialog is open, and what follows
//! when one is opened, changed, confirmed or cancelled.

use std::collections::VecDeque;
use std::path::PathBuf;
use vstd::prelude::*;

verus! {

/// A dialog that is open or waits to be opened. `E` names an entry of the
/// project tree.
#[derive(Clone, Debug, PartialEq, Eq)]
pub enum DialogPage<E> {
    /// Asks for the name of a new file.
    NewVaultFile(String),
    /// Asks for the name of a new folder.
    NewVaultFolder(String),
    /// Asks whether an entry is to be deleted.
    DeleteNode(E),
    /// Asks for the new name of an entry.
    RenameNode(E, String),
    /// Asks for the folder that an entry is to move to.
    MoveNode(E, Option<PathBuf>),
}

/// What can be asked of the dialogs.
#[derive(Clone, Debug, PartialEq, Eq)]
pub enum DialogAction<E> {
    OpenNewVaultFileDialog,
    OpenNewVaultFolderDialog,
    OpenDeleteNodeDialog(E),
    OpenRenameNodeDialog(E),
    OpenMoveNodeDialog(E),
    /// The dialog that is open was confirmed.
    DialogComplete,
    /// The dialog that is open was cancelled.
    DialogCancel,
    /// The dialog that is open holds another value now.
    DialogUpdate(DialogPage<E>),
}

/// What the application is to do after an action on the dialogs.
#[derive(Clone, Debug, PartialEq, Eq)]
pub enum DialogOutcome<E> {
    Nothing,
    /// The text input of the dialog gets the focus.
    FocusInput,
    NewVaultFile(String),
    NewVaultFolder(String),
    DeleteNode(E),
    RenameNode(E, String),
    MoveNode(E, PathBuf),
}

/// What follows when `page` is confirmed: what it asks for, unless it asks
/// for a name and the name is empty, or for a folder and none was chosen.
pub open spec fn confirmed<E>(page: DialogPage<E>, outcome: DialogOutcome<E>) -> bool {
    match page {
        DialogPage::NewVaultFile(name) => if name@.len() > 0 {
            outcome == DialogOutcome::<E>::NewVaultFile(name)
        } else {
            outcome == DialogOutcome::<E>::Nothing
        },
        DialogPage::NewVaultFolder(name) => if name@.len() > 0 {
            outcome == DialogOutcome::<E>::NewVaultFolder(name)
        } else {
            outcome == DialogOutcome::<E>::Nothing
        },
        DialogPage::DeleteNode(entity) => outcome == DialogOutcome::DeleteNode(entity),
        DialogPage::RenameNode(entity, name) => if name@.len() > 0 {
            outcome == DialogOutcome::RenameNode(entity, name)
        } else {
            outcome == DialogOutcome::<E>::Nothing
        },
        DialogPage::MoveNode(entity, Some(target)) => outcome == DialogOutcome::MoveNode(
            entity,
            target,
        ),
        DialogPage::MoveNode(_, None) => outcome == DialogOutcome::<E>::Nothing,
    }
}

/// What opening a dialog adds behind the dialogs that wait, and whether the
/// text input gets the focus.
pub open spec fn opens<E>(action: DialogAction<E>, page: DialogPage<E>, focus: bool) -> bool {
    match action {
        DialogAction::OpenNewVaultFileDialog => {
            &&& focus
            &&& page matches DialogPage::NewVaultFile(name) && name@.len() == 0
        },
        DialogAction::OpenNewVaultFolderDialog => {
            &&& focus
            &&& page matches DialogPage::NewVaultFolder(name) && name@.len() == 0
        },
        DialogAction::OpenDeleteNodeDialog(entity) => !focus && page == DialogPage::DeleteNode(
            entity,
        ),
        DialogAction::OpenRenameNodeDialog(entity) => {
            &&& focus
            &&& page matches DialogPage::RenameNode(e, name) && e == entity && name@.len() == 0
        },
        DialogAction::OpenMoveNodeDialog(entity) => !focus && page == DialogPage::MoveNode(
            entity,
            None,
        ),
        _ => false,
    }
}

/// Whether `action` opens a dialog.
pub open spec fn is_opening<E>(action: DialogAction<E>) -> bool {
    !(action is DialogComplete || action is DialogCancel || action is DialogUpdate)
}

impl<E> DialogAction<E> {
    /// Acts on the dialogs, of which the first is the one that is open, and says
    /// what the application is to do. Opening a dialog puts it behind the others.
    /// Confirming and cancelling close the dialog that is open; confirming also
    /// asks for what the dialog was about. A change puts another value in place
    /// of the dialog that is open.
    pub fn execute(self, dialog_pages: &mut VecDeque<DialogPage<E>>) -> (outcome: DialogOutcome<E>)
        requires
            self is DialogUpdate ==> old(dialog_pages)@.len() > 0,
        ensures
            is_opening(self) ==> {
                &&& final(dialog_pages)@.len() == old(dialog_pages)@.len() + 1
                &&& final(dialog_pages)@.drop_last() == old(dialog_pages)@
                &&& opens(self, final(dialog_pages)@.last(), outcome == DialogOutcome::<E>::FocusInput)
                &&& outcome == DialogOutcome::<E>::FocusInput || outcome == DialogOutcome::<E>::Nothing
            },
            self is DialogComplete ==> if old(dialog_pages)@.len() > 0 {
                &&& final(dialog_pages)@ == old(dialog_pages)@.drop_first()
                &&& confirmed(old(dialog_pages)@.first(), outcome)
            } else {
                &&& final(dialog_pages)@ == old(dialog_pages)@
                &&& outcome == DialogOutcome::<E>::Nothing
            },
            self is DialogCancel ==> {
                &&& outcome == DialogOutcome::<E>::Nothing
                &&& final(dialog_pages)@ == if old(dialog_pages)@.len() > 0 {
                    old(dialog_pages)@.drop_first()
                } else {
                    old(dialog_pages)@
                }
            },
            self matches DialogAction::DialogUpdate(page) ==> {
                &&& outcome == DialogOutcome::<E>::Nothing
                &&& final(dialog_pages)@ == old(dialog_pages)@.update(0, page)
            },
    {
        match self {
            DialogAction::OpenNewVaultFileDialog => {
                dialog_pages.push_back(DialogPage::NewVaultFile(String::new()));
                DialogOutcome::FocusInput
            },
            DialogAction::OpenNewVaultFolderDialog => {
                dialog_pages.push_back(DialogPage::NewVaultFolder(String::new()));
                DialogOutcome::FocusInput
            },
            DialogAction::DialogComplete => {
                match dialog_pages.pop_front() {
                    Some(page) => {
                        match page {
                            DialogPage::NewVaultFile(name) => {
                                if !name.as_str().is_empty() {
                                    DialogOutcome::NewVaultFile(name)
                                } else {
                                    DialogOutcome::Nothing
                                }
                            },
                            DialogPage::NewVaultFolder(name) => {
                                if !name.as_str().is_empty() {
                                    DialogOutcome::NewVaultFolder(name)
                                } else {
                                    DialogOutcome::Nothing
                                }
                            },
                            DialogPage::DeleteNode(entity) => DialogOutcome::DeleteNode(entity),
                            DialogPage::RenameNode(entity, name) => {
                                if !name.as_str().is_empty() {
                                    DialogOutcome::RenameNode(entity, name)
                                } else {
                                    DialogOutcome::Nothing
                                }
                            },
                            DialogPage::MoveNode(entity, Some(target)) => DialogOutcome::MoveNode(
                                entity,
                                target,
                            ),
                            DialogPage::MoveNode(_, None) => DialogOutcome::Nothing,
                        }
                    },
                    None => DialogOutcome::Nothing,
                }
            },
            DialogAction::DialogCancel => {
                let _ = dialog_pages.pop_front();
                DialogOutcome::Nothing
            },
            DialogAction::DialogUpdate(page) => {
                let _ = dialog_pages.pop_front();
                dialog_pages.push_front(page);
                DialogOutcome::Nothing
            },
            DialogAction::OpenDeleteNodeDialog(entity) => {
                dialog_pages.push_back(DialogPage::DeleteNode(entity));
                DialogOutcome::Nothing
            },
            DialogAction::OpenRenameNodeDialog(entity) => {
                dialog_pages.push_back(DialogPage::RenameNode(entity, String::new()));
                DialogOutcome::FocusInput
            },
            DialogAction::OpenMoveNodeDialog(entity) => {
                dialog_pages.push_back(DialogPage::MoveNode(entity, None));
                DialogOutcome::Nothing
            },
        }
    }
}

} // verus!
