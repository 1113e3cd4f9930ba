//! The entries of the project tree.

use vstd::prelude::*;
use vstd::string::StringExecFns;
use crate::icons::IconCacheKey;
use crate::text::{append, append_str, decimal, ends_with, to_chars, to_decimal, to_string};

verus! {

/// A folder or a file of the vault, as the project tree shows it.
#[derive(Clone, Debug, PartialEq, Eq)]
pub enum ProjectNode {
    Folder { name: String, path: std::path::PathBuf, open: bool, root: bool },
    File { name: String, path: std::path::PathBuf },
}

impl ProjectNode {
    /// The name of the icon that stands for this entry.
    pub open spec fn icon_name(self) -> Seq<char> {
        match self {
            ProjectNode::Folder { open, .. } => if open {
                "go-down-symbolic"@
            } else {
                "go-next-symbolic"@
            },
            ProjectNode::File { .. } => "markdown-symbolic"@,
        }
    }

    /// The name that the tree shows.
    pub open spec fn spec_name(self) -> Seq<char> {
        match self {
            ProjectNode::Folder { name, .. } => name@,
            ProjectNode::File { name, .. } => name@,
        }
    }

    /// The entry for `path`, whose last component is `name`: a closed folder
    /// that is not the root if `is_dir`, else a file.
    pub fn from_parts(path: std::path::PathBuf, name: String, is_dir: bool) -> (node: Self)
        ensures
            is_dir ==> node == (ProjectNode::Folder { name, path, open: false, root: false }),
            !is_dir ==> node == (ProjectNode::File { name, path }),
    {
        if is_dir {
            ProjectNode::Folder { path, name, open: false, root: false }
        } else {
            ProjectNode::File { path, name }
        }
    }

    /// The icon of this entry at `size`: an arrow down for an open folder, an
    /// arrow to the right for a closed one, the Markdown mark for a file.
    pub fn icon(&self, size: u16) -> (key: IconCacheKey)
        ensures
            key.name@ == self.icon_name(),
            key.size == size,
    {
        let name = match self {
            ProjectNode::Folder { open, .. } => {
                if *open {
                    "go-down-symbolic"
                } else {
                    "go-next-symbolic"
                }
            },
            ProjectNode::File { .. } => "markdown-symbolic",
        };
        IconCacheKey { name: String::from_str(name), size }
    }

    pub fn name(&self) -> (name: &str)
        ensures
            name@ == self.spec_name(),
    {
        match self {
            ProjectNode::Folder { name, .. } => name.as_str(),
            ProjectNode::File { name, .. } => name.as_str(),
        }
    }
}

/// An entry of the tree as far as its place in the tree goes: how deep it is
/// indented, and whether it is a folder.
#[derive(Clone, Copy, Debug, PartialEq, Eq, Structural)]
pub struct Placed {
    pub indent: u16,
    pub is_folder: bool,
}

/// How many of the entries `after` a folder with `indent` are inside it: those
/// that follow it without a break and are indented deeper.
pub open spec fn inside(after: Seq<Placed>, indent: u16) -> nat
    decreases after.len(),
{
    if after.len() > 0 && after.first().indent > indent {
        1 + inside(after.drop_first(), indent)
    } else {
        0
    }
}

/// How many of the entries inside a folder with `indent` come before the
/// first file among them.
pub open spec fn inside_before_files(after: Seq<Placed>, indent: u16) -> nat
    decreases after.len(),
{
    if after.len() > 0 && after.first().indent > indent && after.first().is_folder {
        1 + inside_before_files(after.drop_first(), indent)
    } else {
        0
    }
}

/// How many of the first `upto` entries inside a folder reach up to its last
/// folder: the position behind the last folder among them.
pub open spec fn behind_last_folder(after: Seq<Placed>, upto: int) -> nat
    decreases upto,
{
    if upto <= 0 {
        0
    } else if after[upto - 1].is_folder {
        upto as nat
    } else {
        behind_last_folder(after, upto - 1)
    }
}

proof fn lemma_inside_is(after: Seq<Placed>, indent: u16, n: int)
    requires
        0 <= n <= after.len(),
        forall|j: int| 0 <= j < n ==> after[j].indent > indent,
        n == after.len() || after[n].indent <= indent,
    ensures
        inside(after, indent) == n,
    decreases n,
{
    if n > 0 {
        lemma_inside_is(after.drop_first(), indent, n - 1);
    }
}

proof fn lemma_inside_before_files_is(after: Seq<Placed>, indent: u16, n: int)
    requires
        0 <= n <= after.len(),
        forall|j: int| 0 <= j < n ==> after[j].indent > indent && after[j].is_folder,
        n == after.len() || after[n].indent <= indent || !after[n].is_folder,
    ensures
        inside_before_files(after, indent) == n,
    decreases n,
{
    if n > 0 {
        lemma_inside_before_files_is(after.drop_first(), indent, n - 1);
    }
}

/// How many of the entries `after` a folder with `indent` are inside it.
pub fn count_inside(after: &Vec<Placed>, indent: u16) -> (count: usize)
    ensures
        count == inside(after@, indent),
        count <= after.len(),
{
    let mut i: usize = 0;
    while i < after.len() && after[i].indent > indent
        invariant
            i <= after.len(),
            forall|j: int| 0 <= j < i ==> after@[j].indent > indent,
        decreases after.len() - i,
    {
        i += 1;
    }
    proof {
        lemma_inside_is(after@, indent, i as int);
    }
    i
}

/// How many entries stand between a folder and a new file in it: everything
/// inside the folder. `after` holds the entries that follow the folder, which
/// is indented by `indent`.
pub fn file_insert_offset(after: &Vec<Placed>, indent: u16) -> (offset: usize)
    ensures
        offset == inside(after@, indent),
{
    count_inside(after, indent)
}

/// How many entries stand between a folder and a new folder in it: the
/// folders inside it that come before its first file.
pub fn folder_insert_offset(after: &Vec<Placed>, indent: u16) -> (offset: usize)
    ensures
        offset == inside_before_files(after@, indent),
{
    let mut i: usize = 0;
    while i < after.len() && after[i].indent > indent && after[i].is_folder
        invariant
            i <= after.len(),
            forall|j: int| 0 <= j < i ==> after@[j].indent > indent && after@[j].is_folder,
        decreases after.len() - i,
    {
        i += 1;
    }
    proof {
        lemma_inside_before_files_is(after@, indent, i as int);
    }
    i
}

/// How many entries stand between a folder and an entry that was moved into
/// it: for a folder those up to the last folder inside the new folder, for a
/// file everything inside it.
pub fn move_insert_offset(after: &Vec<Placed>, indent: u16, moved_is_folder: bool) -> (offset: usize)
    ensures
        offset == if moved_is_folder {
            behind_last_folder(after@, inside(after@, indent) as int)
        } else {
            inside(after@, indent)
        },
{
    let count = count_inside(after, indent);
    if !moved_is_folder {
        return count;
    }
    let mut i: usize = count;
    while i > 0 && !after[i - 1].is_folder
        invariant
            i <= count <= after.len(),
            behind_last_folder(after@, count as int) == behind_last_folder(after@, i as int),
        decreases i,
    {
        i -= 1;
    }
    i
}

/// The name to try for a new file or folder called `name`: the name itself at
/// the first attempt, then the name with a hyphen and the number of the
/// attempt; a file has `.md` at the end.
pub open spec fn candidate(name: Seq<char>, attempt: nat, is_file: bool) -> Seq<char> {
    let stem = if attempt == 0 {
        name
    } else {
        name + "-"@ + decimal(attempt)
    };
    if is_file {
        stem + ".md"@
    } else {
        stem
    }
}

/// The name to try at attempt number `attempt`, counted from zero, for a new
/// file or folder called `name`, where the names tried before are taken.
pub fn candidate_name(name: &str, attempt: usize, is_file: bool) -> (r: String)
    ensures
        r@ == candidate(name@, attempt as nat, is_file),
{
    let mut r = to_chars(name);
    if attempt > 0 {
        append_str(&mut r, "-");
        append(&mut r, &to_decimal(attempt as u128));
    }
    if is_file {
        append_str(&mut r, ".md");
    }
    to_string(&r)
}

/// The name that an entry gets when it is renamed to `name`: a file gets
/// `.md` at the end unless `name` has it.
pub open spec fn renamed(name: Seq<char>, is_file: bool) -> Seq<char> {
    if is_file && !".md"@.is_suffix_of(name) {
        name + ".md"@
    } else {
        name
    }
}

/// The name that an entry gets when it is renamed to `name`.
pub fn renamed_name(name: String, is_file: bool) -> (r: String)
    ensures
        r@ == renamed(name@, is_file),
{
    if is_file && !ends_with(&to_chars(name.as_str()), &to_chars(".md")) {
        let mut r = name;
        r.append(".md");
        r
    } else {
        name
    }
}

/// Whether `a` comes before `b` in the order of strings: at the first place
/// where they differ `a` has the smaller character, or `a` ends there and `b`
/// does not.
pub open spec fn lexically_before(a: Seq<char>, b: Seq<char>) -> bool
    decreases a.len(),
{
    if b.len() == 0 {
        false
    } else if a.len() == 0 {
        true
    } else if a[0] != b[0] {
        (a[0] as u32) < (b[0] as u32)
    } else {
        lexically_before(a.drop_first(), b.drop_first())
    }
}

/// Whether the string `a` comes before the string `b`.
fn comes_before(a: &str, b: &str) -> (before: bool)
    ensures
        before == lexically_before(a@, b@),
{
    let x = to_chars(a);
    let y = to_chars(b);
    let mut i: usize = 0;
    assert(x@.skip(0) =~= x@ && y@.skip(0) =~= y@);
    while i < x.len() && i < y.len() && x[i] == y[i]
        invariant
            i <= x.len(),
            i <= y.len(),
            lexically_before(x@, y@) == lexically_before(x@.skip(i as int), y@.skip(i as int)),
        decreases x.len() - i,
    {
        proof {
            assert(x@.skip(i as int).drop_first() =~= x@.skip(i + 1));
            assert(y@.skip(i as int).drop_first() =~= y@.skip(i + 1));
        }
        i += 1;
    }
    if i >= y.len() {
        false
    } else if i >= x.len() {
        true
    } else {
        (x[i] as u32) < (y[i] as u32)
    }
}

impl ProjectNode {
    /// Whether this entry stands before `other` in the tree: a folder stands
    /// before a file, and of two folders or two files the one whose name comes
    /// first.
    pub open spec fn stands_before(self, other: Self) -> bool {
        match (self, other) {
            (ProjectNode::Folder { .. }, ProjectNode::File { .. }) => true,
            (ProjectNode::File { .. }, ProjectNode::Folder { .. }) => false,
            _ => lexically_before(self.spec_name(), other.spec_name()),
        }
    }

    /// Whether this entry stands before `other` in the tree.
    pub fn precedes(&self, other: &Self) -> (before: bool)
        ensures
            before == self.stands_before(*other),
    {
        match (self, other) {
            (ProjectNode::Folder { .. }, ProjectNode::File { .. }) => true,
            (ProjectNode::File { .. }, ProjectNode::Folder { .. }) => false,
            _ => comes_before(self.name(), other.name()),
        }
    }
}

/// No string comes before itself, and of two strings at most one comes
/// before the other.
pub proof fn lemma_lexical_order_is_strict(a: Seq<char>, b: Seq<char>)
    ensures
        !lexically_before(a, a),
        !(lexically_before(a, b) && lexically_before(b, a)),
        a != b ==> lexically_before(a, b) || lexically_before(b, a),
    decreases a.len(),
{
    if a.len() > 0 {
        lemma_lexical_order_is_strict(a.drop_first(), a.drop_first());
    }
    if a.len() > 0 && b.len() > 0 && a[0] == b[0] {
        lemma_lexical_order_is_strict(a.drop_first(), b.drop_first());
        if a.drop_first() == b.drop_first() {
            assert forall|i: int| 0 <= i < a.len() implies a[i] == b[i] by {
                if i > 0 {
                    assert(a[i] == a.drop_first()[i - 1]);
                }
            }
            assert(a =~= b);
        }
    } else if a.len() > 0 && b.len() > 0 {
        vstd::utf8::char_u32_cast(a[0], a[0] as u32);
        vstd::utf8::char_u32_cast(b[0], b[0] as u32);
    } else if a.len() == 0 && b.len() == 0 {
        assert(a =~= b);
    }
}

} // verus!
