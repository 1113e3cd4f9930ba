use cedilla::files::{check_vault_move, chosen_path, MoveVaultError};

#[test]
fn first_path_of_the_chooser_is_decoded() {
    assert_eq!(
        chosen_path(&vec![String::from("/home/me/My%20Notes/a%C3%A9.md"), String::from("/b")]),
        Some(String::from("/home/me/My Notes/a\u{e9}.md"))
    );
    assert_eq!(chosen_path(&vec![String::from("/plain/path.md")]), Some(String::from("/plain/path.md")));
    assert_eq!(chosen_path(&vec![String::from("/bad/%FF")]), Some(String::from("/bad/\u{FFFD}")));
    assert_eq!(chosen_path(&Vec::new()), None);
}

#[test]
fn vault_moves_only_from_a_directory_to_a_place_outside_it() {
    assert_eq!(check_vault_move(true, true, false), Ok(()));
    assert_eq!(check_vault_move(false, true, false), Err(MoveVaultError::SourceMissing));
    assert_eq!(check_vault_move(false, false, true), Err(MoveVaultError::SourceMissing));
    assert_eq!(check_vault_move(true, false, true), Err(MoveVaultError::SourceNotDirectory));
    assert_eq!(check_vault_move(true, true, true), Err(MoveVaultError::DestinationInside));
}

#[test]
fn vault_errors_have_words() {
    assert_eq!(
        MoveVaultError::SourceMissing.message("/old", "/new"),
        "Source vault path does not exist: /old"
    );
    assert_eq!(
        MoveVaultError::SourceNotDirectory.message("/old", "/new"),
        "Source vault path is not a directory: /old"
    );
    assert_eq!(
        MoveVaultError::DestinationInside.message("/old", "/old/new"),
        "Destination '/old/new' is inside the current vault '/old'. Cannot move a vault into itself."
    );
}
