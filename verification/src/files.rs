//! What is decided about files without touching them: the path that a file
//! chooser gave, and whether a vault may move.

use vstd::prelude::*;
use vstd::string::StringExecFns;

verus! {

/// `text` with its percent escapes decoded, as UTF-8 in which every byte
/// sequence that is no UTF-8 is the replacement character.
pub uninterp spec fn percent_decoded(text: Seq<char>) -> Seq<char>;

/// Calls `percent_decode_str` of the crate `percent_encoding` and then
/// `PercentDecode::decode_utf8_lossy`.
#[verifier::external_body]
fn percent_decode(text: &str) -> (decoded: String)
    ensures
        decoded@ == percent_decoded(text@),
{
    percent_encoding::percent_decode_str(text).decode_utf8_lossy().into_owned()
}

/// The path of the file that was chosen, from the paths of the URIs that the
/// file chooser gave: the first, decoded; nothing where it gave none.
pub fn chosen_path(uri_paths: &Vec<String>) -> (path: Option<String>)
    ensures
        match path {
            Some(chosen) => uri_paths@.len() > 0 && chosen@ == percent_decoded(uri_paths@[0]@),
            None => uri_paths@.len() == 0,
        },
{
    if uri_paths.len() > 0 {
        Some(percent_decode(uri_paths[0].as_str()))
    } else {
        None
    }
}

/// Why a vault cannot move.
#[derive(Clone, Copy, Debug, PartialEq, Eq, Structural)]
pub enum MoveVaultError {
    /// The vault is not where it is said to be.
    SourceMissing,
    /// What is there is no directory.
    SourceNotDirectory,
    /// The new place is inside the vault.
    DestinationInside,
}

/// Whether a vault may move, and if not, the first reason in this order: the
/// vault is missing, it is no directory, the new place is inside it.
pub open spec fn vault_move_checked(
    source_exists: bool,
    source_is_dir: bool,
    destination_inside: bool,
) -> Result<(), MoveVaultError> {
    if !source_exists {
        Err(MoveVaultError::SourceMissing)
    } else if !source_is_dir {
        Err(MoveVaultError::SourceNotDirectory)
    } else if destination_inside {
        Err(MoveVaultError::DestinationInside)
    } else {
        Ok(())
    }
}

/// Whether a vault may move, given what the file system says of the old place
/// and whether the new place lies inside the old.
pub fn check_vault_move(source_exists: bool, source_is_dir: bool, destination_inside: bool) -> (r:
    Result<(), MoveVaultError>)
    ensures
        r == vault_move_checked(source_exists, source_is_dir, destination_inside),
{
    if !source_exists {
        Err(MoveVaultError::SourceMissing)
    } else if !source_is_dir {
        Err(MoveVaultError::SourceNotDirectory)
    } else if destination_inside {
        Err(MoveVaultError::DestinationInside)
    } else {
        Ok(())
    }
}

impl MoveVaultError {
    /// The words for this error, for a vault at `old_path` that was to move
    /// to `new_path`.
    pub fn message(self, old_path: &str, new_path: &str) -> (words: String)
        ensures
            match self {
                MoveVaultError::SourceMissing => words@ == "Source vault path does not exist: "@
                    + old_path@,
                MoveVaultError::SourceNotDirectory => words@
                    == "Source vault path is not a directory: "@ + old_path@,
                MoveVaultError::DestinationInside => words@ == "Destination '"@ + new_path@
                    + "' is inside the current vault '"@ + old_path@
                    + "'. Cannot move a vault into itself."@,
            },
    {
        match self {
            MoveVaultError::SourceMissing => {
                let mut words = String::from_str("Source vault path does not exist: ");
                words.append(old_path);
                words
            },
            MoveVaultError::SourceNotDirectory => {
                let mut words = String::from_str("Source vault path is not a directory: ");
                words.append(old_path);
                words
            },
            MoveVaultError::DestinationInside => {
                let mut words = String::from_str("Destination '");
                words.append(new_path);
                words.append("' is inside the current vault '");
                words.append(old_path);
                words.append("'. Cannot move a vault into itself.");
                words
            },
        }
    }
}

} // verus!
