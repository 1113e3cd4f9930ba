use std::path::PathBuf;

use cedilla::icons::IconCacheKey;
use cedilla::project::{
    candidate_name, count_inside, file_insert_offset, folder_insert_offset, move_insert_offset,
    renamed_name, Placed, ProjectNode,
};

fn folder(indent: u16) -> Placed {
    Placed { indent, is_folder: true }
}

fn file(indent: u16) -> Placed {
    Placed { indent, is_folder: false }
}

#[test]
fn node_of_a_folder_and_of_a_file() {
    let folder = ProjectNode::from_parts(PathBuf::from("/v/notes"), String::from("notes"), true);
    assert_eq!(
        folder,
        ProjectNode::Folder {
            name: String::from("notes"),
            path: PathBuf::from("/v/notes"),
            open: false,
            root: false
        }
    );
    assert_eq!(folder.name(), "notes");
    let file = ProjectNode::from_parts(PathBuf::from("/v/a.md"), String::from("a.md"), false);
    assert_eq!(file, ProjectNode::File { name: String::from("a.md"), path: PathBuf::from("/v/a.md") });
    assert_eq!(file.name(), "a.md");
}

#[test]
fn icons_of_nodes() {
    let closed = ProjectNode::from_parts(PathBuf::from("/v/n"), String::from("n"), true);
    assert_eq!(
        closed.icon(18),
        IconCacheKey { name: String::from("go-next-symbolic"), size: 18 }
    );
    let open = ProjectNode::Folder {
        name: String::from("n"),
        path: PathBuf::from("/v/n"),
        open: true,
        root: false,
    };
    assert_eq!(open.icon(16), IconCacheKey { name: String::from("go-down-symbolic"), size: 16 });
    let file = ProjectNode::from_parts(PathBuf::from("/v/a.md"), String::from("a.md"), false);
    assert_eq!(file.icon(18), IconCacheKey { name: String::from("markdown-symbolic"), size: 18 });
}

#[test]
fn entries_inside_a_folder() {
    let after = vec![folder(2), file(3), file(2), file(1), file(2)];
    assert_eq!(count_inside(&after, 1), 3);
    assert_eq!(count_inside(&after, 0), 5);
    assert_eq!(count_inside(&after, 2), 0);
    assert_eq!(count_inside(&Vec::new(), 0), 0);
}

#[test]
fn new_file_goes_behind_everything_in_its_folder() {
    let after = vec![folder(2), file(3), file(2), folder(1)];
    assert_eq!(file_insert_offset(&after, 1), 3);
    assert_eq!(file_insert_offset(&after, 3), 0);
}

#[test]
fn new_folder_goes_before_the_first_file() {
    assert_eq!(folder_insert_offset(&vec![folder(2), folder(2), file(2), folder(2)], 1), 2);
    assert_eq!(folder_insert_offset(&vec![folder(2), file(3), folder(2)], 1), 1);
    assert_eq!(folder_insert_offset(&vec![file(2)], 1), 0);
    assert_eq!(folder_insert_offset(&vec![folder(1)], 1), 0);
    assert_eq!(folder_insert_offset(&Vec::new(), 1), 0);
}

#[test]
fn moved_entry_goes_behind_its_kind() {
    let after = vec![folder(2), file(3), folder(2), file(2), file(2), file(1)];
    assert_eq!(move_insert_offset(&after, 1, false), 5);
    assert_eq!(move_insert_offset(&after, 1, true), 3);
    assert_eq!(move_insert_offset(&vec![file(2), file(2)], 1, true), 0);
    assert_eq!(move_insert_offset(&Vec::new(), 1, true), 0);
}

#[test]
fn names_that_are_tried_for_a_new_entry() {
    assert_eq!(candidate_name("note", 0, true), "note.md");
    assert_eq!(candidate_name("note", 1, true), "note-1.md");
    assert_eq!(candidate_name("note", 12, true), "note-12.md");
    assert_eq!(candidate_name("dir", 0, false), "dir");
    assert_eq!(candidate_name("dir", 3, false), "dir-3");
    assert_eq!(candidate_name("n", usize::MAX, false), format!("n-{}", usize::MAX));
}

#[test]
fn renamed_file_keeps_its_extension() {
    assert_eq!(renamed_name(String::from("a"), true), "a.md");
    assert_eq!(renamed_name(String::from("a.md"), true), "a.md");
    assert_eq!(renamed_name(String::from("a.MD"), true), "a.MD.md");
    assert_eq!(renamed_name(String::from("a"), false), "a");
    assert_eq!(renamed_name(String::from(""), true), ".md");
}
