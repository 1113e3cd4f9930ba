//! The entries of the application menu.

use vstd::prelude::*;

verus! {

/// What an entry of the application menu asks for.
#[derive(Clone, Copy, Debug, PartialEq, Eq, Structural)]
pub enum MenuAction {
    /// Open the page about the application.
    About,
    /// Open the settings page.
    Settings,
    /// Pick a file to open.
    OpenFile,
    /// Start an empty file.
    NewFile,
    /// Start a file in the vault.
    NewVaultFile,
    /// Save the current file.
    SaveFile,
    /// Show or hide the preview.
    TogglePreview,
    Undo,
    Redo,
}

} // verus!
