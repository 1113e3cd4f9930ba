//! The formatting commands of the editor: each turns the selected text into
//! the text that replaces it. A command that finds its own mark on the text
//! takes the mark off; otherwise it puts the mark on.

use vstd::prelude::*;
use vstd::string::StringExecFns;
use crate::text::{
    alphanumeric, append, append_str, decimal, ends_with, find, found, join, joined, lines,
    numeric, slice, split_lines, starts_with, to_chars, to_decimal, to_string, trim,
    trim_start_matches, trimmed, without_leading,
};

verus! {

/// A formatting command.
#[derive(Clone, Copy, Debug, PartialEq, Eq, Structural)]
pub enum SelectionAction {
    Heading1,
    Heading2,
    Heading3,
    Heading4,
    Heading5,
    Heading6,
    Bold,
    Italic,
    Hyperlink,
    Code,
    CodeBlock,
    Image,
    BulletedList,
    NumberedList,
    CheckboxList,
    Rule,
}

/// The kind of list that a list command makes.
#[derive(Clone, Copy, Debug, PartialEq, Eq, Structural)]
pub enum ListKind {
    Bulleted,
    Numbered,
    Checkbox,
}

/// `count` number signs.
pub open spec fn hashes(count: nat) -> Seq<char> {
    Seq::new(count, |i: int| '#')
}

/// What the heading command of `level` makes of `text`: a heading of that
/// level loses its mark; any other text loses the number signs it begins with
/// and gets the mark of that level.
pub open spec fn heading_toggled(text: Seq<char>, level: nat) -> Seq<char> {
    let t = trimmed(text);
    if hashes(level).is_prefix_of(t) && (t.len() == level || t[level as int] == ' ') {
        trimmed(t.skip(level as int))
    } else {
        hashes(level) + seq![' '] + trimmed(without_leading(t, seq!['#']))
    }
}

/// What an inline command with `marker` makes of `text`: text between two
/// markers loses them, any other text is put between two. Bold text is put
/// between two more asterisks by the command for italics.
pub open spec fn inline_toggled(text: Seq<char>, marker: Seq<char>) -> Seq<char> {
    let t = trimmed(text);
    if t.len() == 0 {
        marker
    } else if marker == "*"@ && "**"@.is_prefix_of(t) && "**"@.is_suffix_of(t) {
        "*"@ + t + "*"@
    } else if marker.is_prefix_of(t) && marker.is_suffix_of(t) && t.len() > 2 * marker.len() {
        t.subrange(marker.len() as int, t.len() - marker.len())
    } else {
        marker + t + marker
    }
}

/// Whether `t` has the shape of a link: an opening bracket first, `](`
/// somewhere, a closing parenthesis last.
pub open spec fn is_link_shaped(t: Seq<char>) -> bool {
    t.len() > 0 && t[0] == '[' && found(t, "]("@) is Some && t.last() == ')'
}

/// Whether `t` begins like a web address.
pub open spec fn is_web_address(t: Seq<char>) -> bool {
    "http://"@.is_prefix_of(t) || "https://"@.is_prefix_of(t)
}

/// What the link command makes of `text`: a link gives its display text, a
/// web address becomes a link to itself, other text the display text of a
/// link that is still to be filled in.
pub open spec fn hyperlink_toggled(text: Seq<char>) -> Seq<char> {
    let t = trimmed(text);
    if t.len() == 0 {
        "[](url)"@
    } else if is_link_shaped(t) {
        t.subrange(1, found(t, "]("@)->0)
    } else if is_web_address(t) {
        "["@ + t + "]("@ + t + ")"@
    } else {
        "["@ + t + "](url)"@
    }
}

/// Whether every character of `s` may stand in the name of a language.
pub open spec fn is_language_name(s: Seq<char>) -> bool {
    forall|i: int| 0 <= i < s.len() ==> alphanumeric(#[trigger] s[i]) || s[i] == '-' || s[i] == '_'
}

/// What stands inside a fence, without the line that names the language.
pub open spec fn fence_body(inner: Seq<char>) -> Seq<char> {
    match found(inner, "\n"@) {
        Some(newline) => if is_language_name(trimmed(inner.take(newline))) {
            trimmed(inner.skip(newline))
        } else {
            inner
        },
        None => inner,
    }
}

/// What the code block command makes of `text`: a fenced block gives its body,
/// other text is fenced.
pub open spec fn code_block_toggled(text: Seq<char>) -> Seq<char> {
    let t = trimmed(text);
    if t.len() == 0 {
        "```\n\n```"@
    } else if "```"@.is_prefix_of(t) && "```"@.is_suffix_of(t) && t.len() > 6 {
        fence_body(trimmed(t.subrange(3, t.len() - 3)))
    } else {
        "```\n"@ + t + "\n```"@
    }
}

/// Whether `t` has the shape of an image.
pub open spec fn is_image_shaped(t: Seq<char>) -> bool {
    "!["@.is_prefix_of(t) && found(t, "]("@) is Some && t.len() > 0 && t.last() == ')'
}

/// What the image command makes of `text`: an image gives its alternative
/// text, a web address becomes the source of an image, other text the
/// alternative text of an image whose source is still to be filled in.
pub open spec fn image_toggled(text: Seq<char>) -> Seq<char> {
    let t = trimmed(text);
    if t.len() == 0 {
        "![alt text](image-url)"@
    } else if is_image_shaped(t) {
        t.subrange(2, found(t, "]("@)->0)
    } else if is_web_address(t) {
        "![alt text]("@ + t + ")"@
    } else {
        "!["@ + t + "](image-url)"@
    }
}

/// Whether `t` begins with a checkbox.
pub open spec fn has_checkbox(t: Seq<char>) -> bool {
    "- [ ]"@.is_prefix_of(t) || "- [x]"@.is_prefix_of(t) || "- [X]"@.is_prefix_of(t)
}

/// Whether `t` begins with a bullet.
pub open spec fn has_bullet(t: Seq<char>) -> bool {
    "- "@.is_prefix_of(t) || "* "@.is_prefix_of(t) || "+ "@.is_prefix_of(t)
}

/// Whether the trimmed line `t` is an entry of a list of `kind`.
pub open spec fn is_entry(t: Seq<char>, kind: ListKind) -> bool {
    match kind {
        ListKind::Bulleted => has_bullet(t) && !has_checkbox(t),
        ListKind::Numbered => t.len() > 0 && numeric(t[0]) && found(t, ". "@) is Some,
        ListKind::Checkbox => has_checkbox(t),
    }
}

/// Whether every line that is not blank is an entry of a list of `kind`.
pub open spec fn all_entries(lines: Seq<Seq<char>>, kind: ListKind) -> bool {
    forall|i: int|
        0 <= i < lines.len() ==> trimmed(#[trigger] lines[i]).len() == 0 || is_entry(
            trimmed(lines[i]),
            kind,
        )
}

/// The entry `t` of a list of `kind` without its mark.
pub open spec fn entry_text(t: Seq<char>, kind: ListKind) -> Seq<char> {
    match kind {
        ListKind::Bulleted => without_leading(
            without_leading(without_leading(t, "- "@), "* "@),
            "+ "@,
        ),
        ListKind::Numbered => match found(t, ". "@) {
            Some(dot) => t.skip(dot + 2),
            None => t,
        },
        ListKind::Checkbox => without_leading(
            without_leading(without_leading(t, "- [ ] "@), "- [x] "@),
            "- [X] "@,
        ),
    }
}

/// The line without the mark of the list of `kind` that it is an entry of.
pub open spec fn unmarked_line(line: Seq<char>, kind: ListKind) -> Seq<char> {
    let t = trimmed(line);
    if t.len() == 0 {
        Seq::empty()
    } else {
        entry_text(t, kind)
    }
}

/// Whether every character of `s` is a number.
pub open spec fn all_numeric(s: Seq<char>) -> bool {
    forall|i: int| 0 <= i < s.len() ==> numeric(#[trigger] s[i])
}

/// `text` without the mark of a list entry, whatever the kind: a checkbox, a
/// bullet, or a number with a full stop.
pub open spec fn any_marker_stripped(text: Seq<char>) -> Seq<char> {
    if "- [ ] "@.is_prefix_of(text) {
        text.skip("- [ ] "@.len() as int)
    } else if "- [x] "@.is_prefix_of(text) {
        text.skip("- [x] "@.len() as int)
    } else if "- [X] "@.is_prefix_of(text) {
        text.skip("- [X] "@.len() as int)
    } else if "- "@.is_prefix_of(text) {
        text.skip("- "@.len() as int)
    } else if "* "@.is_prefix_of(text) {
        text.skip("* "@.len() as int)
    } else if "+ "@.is_prefix_of(text) {
        text.skip("+ "@.len() as int)
    } else {
        match found(text, ". "@) {
            Some(dot) => if all_numeric(text.take(dot)) {
                text.skip(dot + ". "@.len())
            } else {
                text
            },
            None => text,
        }
    }
}

/// The mark of entry number `index`, counted from zero, of a list of `kind`.
pub open spec fn entry_mark(index: nat, kind: ListKind) -> Seq<char> {
    match kind {
        ListKind::Bulleted => "- "@,
        ListKind::Numbered => decimal(index + 1) + ". "@,
        ListKind::Checkbox => "- [ ] "@,
    }
}

/// Line number `index` as an entry of a list of `kind`, in place of whatever
/// mark it had.
pub open spec fn marked_line(line: Seq<char>, index: nat, kind: ListKind) -> Seq<char> {
    entry_mark(index, kind) + any_marker_stripped(trimmed(line))
}

/// What the list command for `kind` makes of `text`: where every line is an
/// entry of such a list the marks come off, otherwise every line becomes one.
pub open spec fn list_toggled(text: Seq<char>, kind: ListKind) -> Seq<char> {
    if trimmed(text).len() == 0 {
        entry_mark(0, kind)
    } else {
        let lines = split_lines(text);
        if all_entries(lines, kind) {
            joined(Seq::new(lines.len(), |i: int| unmarked_line(lines[i], kind)), "\n"@)
        } else {
            joined(Seq::new(lines.len(), |i: int| marked_line(lines[i], i as nat, kind)), "\n"@)
        }
    }
}

/// What the rule command makes of `text`: a rule goes away, other text gets a
/// rule below it.
pub open spec fn rule_toggled(text: Seq<char>) -> Seq<char> {
    let t = trimmed(text);
    if t == "---"@ || t == "***"@ || t == "___"@ {
        Seq::empty()
    } else if t.len() == 0 {
        "---"@
    } else {
        t + "\n\n---"@
    }
}

/// What `action` makes of `text`.
pub open spec fn formatted(text: Seq<char>, action: SelectionAction) -> Seq<char> {
    match action {
        SelectionAction::Heading1 => heading_toggled(text, 1),
        SelectionAction::Heading2 => heading_toggled(text, 2),
        SelectionAction::Heading3 => heading_toggled(text, 3),
        SelectionAction::Heading4 => heading_toggled(text, 4),
        SelectionAction::Heading5 => heading_toggled(text, 5),
        SelectionAction::Heading6 => heading_toggled(text, 6),
        SelectionAction::Bold => inline_toggled(text, "**"@),
        SelectionAction::Italic => inline_toggled(text, "*"@),
        SelectionAction::Hyperlink => hyperlink_toggled(text),
        SelectionAction::Code => inline_toggled(text, "`"@),
        SelectionAction::CodeBlock => code_block_toggled(text),
        SelectionAction::Image => image_toggled(text),
        SelectionAction::BulletedList => list_toggled(text, ListKind::Bulleted),
        SelectionAction::NumberedList => list_toggled(text, ListKind::Numbered),
        SelectionAction::CheckboxList => list_toggled(text, ListKind::Checkbox),
        SelectionAction::Rule => rule_toggled(text),
    }
}

/// The text that replaces the selection `text` when `action` is applied.
pub fn format_selected_text(text: &str, action: &SelectionAction) -> (r: String)
    ensures
        r@ == formatted(text@, *action),
{
    match action {
        SelectionAction::Heading1 => toggle_heading(text, 1),
        SelectionAction::Heading2 => toggle_heading(text, 2),
        SelectionAction::Heading3 => toggle_heading(text, 3),
        SelectionAction::Heading4 => toggle_heading(text, 4),
        SelectionAction::Heading5 => toggle_heading(text, 5),
        SelectionAction::Heading6 => toggle_heading(text, 6),
        SelectionAction::Bold => toggle_inline(text, "**"),
        SelectionAction::Italic => toggle_inline(text, "*"),
        SelectionAction::Hyperlink => toggle_hyperlink(text),
        SelectionAction::Code => toggle_inline(text, "`"),
        SelectionAction::CodeBlock => toggle_code_block(text),
        SelectionAction::Image => toggle_image(text),
        SelectionAction::BulletedList => toggle_list(text, ListKind::Bulleted),
        SelectionAction::NumberedList => toggle_list(text, ListKind::Numbered),
        SelectionAction::CheckboxList => toggle_list(text, ListKind::Checkbox),
        SelectionAction::Rule => toggle_rule(text),
    }
}

pub fn toggle_heading(text: &str, level: usize) -> (r: String)
    ensures
        r@ == heading_toggled(text@, level as nat),
{
    let source = to_chars(text);
    let t = trim(&source);
    let mut marks: Vec<char> = Vec::new();
    let mut i: usize = 0;
    while i < level
        invariant
            i <= level,
            marks@ == hashes(i as nat),
        decreases level - i,
    {
        marks.push('#');
        i += 1;
    }
    if starts_with(&t, &marks) && (t.len() == level || t[level] == ' ') {
        let rest = slice(&t, level, t.len());
        return to_string(&trim(&rest));
    }
    let mut sign: Vec<char> = Vec::new();
    sign.push('#');
    let rest = trim(&trim_start_matches(&t, &sign));
    marks.push(' ');
    append(&mut marks, &rest);
    to_string(&marks)
}

pub fn toggle_inline(text: &str, marker: &str) -> (r: String)
    ensures
        r@ == inline_toggled(text@, marker@),
{
    let source = to_chars(text);
    let t = trim(&source);
    let mark = to_chars(marker);
    if t.len() == 0 {
        return to_string(&mark);
    }
    let star = to_chars("*");
    let stars = to_chars("**");
    let is_star = starts_with(&mark, &star) && mark.len() == star.len();
    assert(is_star == (mark@ == "*"@)) by {
        if is_star {
            assert(mark@ =~= mark@.subrange(0, mark@.len() as int));
        }
    }
    if is_star && starts_with(&t, &stars) && ends_with(&t, &stars) {
        let mut r = star;
        append(&mut r, &t);
        append_str(&mut r, "*");
        return to_string(&r);
    }
    if starts_with(&t, &mark) && ends_with(&t, &mark) && t.len() - mark.len() > mark.len() {
        to_string(&slice(&t, mark.len(), t.len() - mark.len()))
    } else {
        let mut r = mark;
        append(&mut r, &t);
        append_str(&mut r, marker);
        to_string(&r)
    }
}

/// Whether `t` begins like a web address.
fn begins_like_web_address(t: &Vec<char>) -> (r: bool)
    ensures
        r == is_web_address(t@),
{
    starts_with(t, &to_chars("http://")) || starts_with(t, &to_chars("https://"))
}

pub fn toggle_hyperlink(text: &str) -> (r: String)
    ensures
        r@ == hyperlink_toggled(text@),
{
    let source = to_chars(text);
    let t = trim(&source);
    if t.len() == 0 {
        return String::from_str("[](url)");
    }
    if t[0] == '[' && t[t.len() - 1] == ')' {
        if let Some(display_end) = find(&t, &to_chars("](")) {
            proof {
                reveal_strlit("](");
                if display_end == 0 {
                    assert(t@.subrange(0, 2)[0] == "]("@[0]);
                }
            }
            return to_string(&slice(&t, 1, display_end));
        }
    }
    if begins_like_web_address(&t) {
        let mut r = to_chars("[");
        append(&mut r, &t);
        append_str(&mut r, "](");
        append(&mut r, &t);
        append_str(&mut r, ")");
        return to_string(&r);
    }
    let mut r = to_chars("[");
    append(&mut r, &t);
    append_str(&mut r, "](url)");
    to_string(&r)
}

/// Whether every character of `v` may stand in the name of a language.
fn names_language(v: &Vec<char>) -> (r: bool)
    ensures
        r == is_language_name(v@),
{
    let mut i: usize = 0;
    while i < v.len()
        invariant
            i <= v.len(),
            forall|j: int| 0 <= j < i ==> alphanumeric(#[trigger] v@[j]) || v@[j] == '-' || v@[j] == '_',
        decreases v.len() - i,
    {
        let c = v[i];
        if !(c.is_alphanumeric() || c == '-' || c == '_') {
            return false;
        }
        i += 1;
    }
    true
}

pub fn toggle_code_block(text: &str) -> (r: String)
    ensures
        r@ == code_block_toggled(text@),
{
    let source = to_chars(text);
    let t = trim(&source);
    if t.len() == 0 {
        return String::from_str("```\n\n```");
    }
    let fence = to_chars("```");
    if starts_with(&t, &fence) && ends_with(&t, &fence) && t.len() > 6 {
        let inner = trim(&slice(&t, 3, t.len() - 3));
        if let Some(newline) = find(&inner, &to_chars("\n")) {
            let first_line = trim(&slice(&inner, 0, newline));
            if names_language(&first_line) {
                return to_string(&trim(&slice(&inner, newline, inner.len())));
            }
        }
        return to_string(&inner);
    }
    let mut r = to_chars("```\n");
    append(&mut r, &t);
    append_str(&mut r, "\n```");
    to_string(&r)
}

pub fn toggle_image(text: &str) -> (r: String)
    ensures
        r@ == image_toggled(text@),
{
    let source = to_chars(text);
    let t = trim(&source);
    if t.len() == 0 {
        return String::from_str("![alt text](image-url)");
    }
    if starts_with(&t, &to_chars("![")) && t[t.len() - 1] == ')' {
        if let Some(alt_end) = find(&t, &to_chars("](")) {
            proof {
                reveal_strlit("](");
                reveal_strlit("![");
                if alt_end < 2 {
                    assert(t@.subrange(alt_end as int, alt_end + 2)[0] == "]("@[0]);
                    assert(t@.subrange(0, 2)[alt_end as int] == "!["@[alt_end as int]);
                }
            }
            return to_string(&slice(&t, 2, alt_end));
        }
    }
    if begins_like_web_address(&t) {
        let mut r = to_chars("![alt text](");
        append(&mut r, &t);
        append_str(&mut r, ")");
        return to_string(&r);
    }
    let mut r = to_chars("![");
    append(&mut r, &t);
    append_str(&mut r, "](image-url)");
    to_string(&r)
}

/// Whether `t` begins with a checkbox.
fn begins_with_checkbox(t: &Vec<char>) -> (r: bool)
    ensures
        r == has_checkbox(t@),
{
    starts_with(t, &to_chars("- [ ]")) || starts_with(t, &to_chars("- [x]")) || starts_with(
        t,
        &to_chars("- [X]"),
    )
}

/// Whether `t` begins with a bullet.
fn begins_with_bullet(t: &Vec<char>) -> (r: bool)
    ensures
        r == has_bullet(t@),
{
    starts_with(t, &to_chars("- ")) || starts_with(t, &to_chars("* ")) || starts_with(
        t,
        &to_chars("+ "),
    )
}

/// Whether the trimmed line `t` is an entry of a list of `kind`.
fn is_list_entry(t: &Vec<char>, kind: ListKind) -> (r: bool)
    ensures
        r == is_entry(t@, kind),
{
    match kind {
        ListKind::Bulleted => begins_with_bullet(t) && !begins_with_checkbox(t),
        ListKind::Numbered => t.len() > 0 && t[0].is_numeric() && find(t, &to_chars(". ")).is_some(),
        ListKind::Checkbox => begins_with_checkbox(t),
    }
}

/// The line without the mark of the list of `kind` that it is an entry of.
fn unmark_line(line: &Vec<char>, kind: ListKind) -> (r: Vec<char>)
    ensures
        r@ == unmarked_line(line@, kind),
{
    let t = trim(line);
    if t.len() == 0 {
        return Vec::new();
    }
    match kind {
        ListKind::Bulleted => {
            let a = trim_start_matches(&t, &to_chars("- "));
            let b = trim_start_matches(&a, &to_chars("* "));
            trim_start_matches(&b, &to_chars("+ "))
        },
        ListKind::Numbered => {
            match find(&t, &to_chars(". ")) {
                Some(dot) => {
                    proof {
                        reveal_strlit(". ");
                    }
                    slice(&t, dot + 2, t.len())
                },
                None => t,
            }
        },
        ListKind::Checkbox => {
            let a = trim_start_matches(&t, &to_chars("- [ ] "));
            let b = trim_start_matches(&a, &to_chars("- [x] "));
            trim_start_matches(&b, &to_chars("- [X] "))
        },
    }
}

/// Whether every character of `v` is a number.
fn is_all_numeric(v: &Vec<char>) -> (r: bool)
    ensures
        r == all_numeric(v@),
{
    let mut i: usize = 0;
    while i < v.len()
        invariant
            i <= v.len(),
            forall|j: int| 0 <= j < i ==> numeric(#[trigger] v@[j]),
        decreases v.len() - i,
    {
        if !v[i].is_numeric() {
            return false;
        }
        i += 1;
    }
    true
}

/// `t` without `mark` at its front, if it begins with it.
fn strip_prefix(t: &Vec<char>, mark: &str) -> (r: Option<Vec<char>>)
    ensures
        match r {
            Some(rest) => mark@.is_prefix_of(t@) && rest@ == t@.skip(mark@.len() as int),
            None => !mark@.is_prefix_of(t@),
        },
{
    let p = to_chars(mark);
    if starts_with(t, &p) {
        Some(slice(t, p.len(), t.len()))
    } else {
        None
    }
}

/// `t` without the mark of a list entry, whatever the kind.
fn strip_marker(t: &Vec<char>) -> (r: Vec<char>)
    ensures
        r@ == any_marker_stripped(t@),
{
    if let Some(rest) = strip_prefix(t, "- [ ] ") {
        return rest;
    }
    if let Some(rest) = strip_prefix(t, "- [x] ") {
        return rest;
    }
    if let Some(rest) = strip_prefix(t, "- [X] ") {
        return rest;
    }
    if let Some(rest) = strip_prefix(t, "- ") {
        return rest;
    }
    if let Some(rest) = strip_prefix(t, "* ") {
        return rest;
    }
    if let Some(rest) = strip_prefix(t, "+ ") {
        return rest;
    }
    let stop = to_chars(". ");
    if let Some(dot) = find(t, &stop) {
        if is_all_numeric(&slice(t, 0, dot)) {
            return slice(t, dot + stop.len(), t.len());
        }
    }
    slice(t, 0, t.len())
}

/// Strips the mark of a list entry of any kind from the front of `text`.
pub fn strip_any_list_marker(text: &str) -> (r: String)
    ensures
        r@ == any_marker_stripped(text@),
{
    to_string(&strip_marker(&to_chars(text)))
}

/// The mark of entry number `index`, counted from zero, of a list of `kind`.
fn mark_of(index: usize, kind: ListKind) -> (r: Vec<char>)
    requires
        index < usize::MAX,
    ensures
        r@ == entry_mark(index as nat, kind),
{
    match kind {
        ListKind::Bulleted => to_chars("- "),
        ListKind::Numbered => {
            let mut r = to_decimal(index as u128 + 1);
            append_str(&mut r, ". ");
            r
        },
        ListKind::Checkbox => to_chars("- [ ] "),
    }
}

/// Line number `index` as an entry of a list of `kind`.
fn mark_line(line: &Vec<char>, index: usize, kind: ListKind) -> (r: Vec<char>)
    requires
        index < usize::MAX,
    ensures
        r@ == marked_line(line@, index as nat, kind),
{
    let mut r = mark_of(index, kind);
    append(&mut r, &strip_marker(&trim(line)));
    r
}

pub fn toggle_list(text: &str, kind: ListKind) -> (r: String)
    ensures
        r@ == list_toggled(text@, kind),
{
    let source = to_chars(text);
    if trim(&source).len() == 0 {
        return to_string(&mark_of(0, kind));
    }
    let all = lines(&source);
    let ghost parts = split_lines(source@);
    let mut every = true;
    let mut i: usize = 0;
    while i < all.len() && every
        invariant
            i <= all.len(),
            all@.len() == parts.len(),
            forall|j: int| 0 <= j < all@.len() ==> (#[trigger] all@[j])@ == parts[j],
            every ==> forall|j: int|
                0 <= j < i ==> trimmed(#[trigger] parts[j]).len() == 0 || is_entry(
                    trimmed(parts[j]),
                    kind,
                ),
            !every ==> !all_entries(parts, kind),
        decreases all.len() - i + if every { 1int } else { 0int },
    {
        let t = trim(&all[i]);
        if t.len() != 0 && !is_list_entry(&t, kind) {
            every = false;
        } else {
            i += 1;
        }
    }
    let ghost wanted = if every {
        Seq::new(parts.len(), |j: int| unmarked_line(parts[j], kind))
    } else {
        Seq::new(parts.len(), |j: int| marked_line(parts[j], j as nat, kind))
    };
    let mut out: Vec<Vec<char>> = Vec::new();
    let mut i: usize = 0;
    while i < all.len()
        invariant
            i <= all.len(),
            all@.len() == parts.len(),
            forall|j: int| 0 <= j < all@.len() ==> (#[trigger] all@[j])@ == parts[j],
            out@.len() == i,
            wanted.len() == parts.len(),
            forall|j: int| 0 <= j < parts.len() ==> #[trigger] wanted[j] == if every {
                unmarked_line(parts[j], kind)
            } else {
                marked_line(parts[j], j as nat, kind)
            },
            forall|j: int| 0 <= j < i ==> (#[trigger] out@[j])@ == wanted[j],
        decreases all.len() - i,
    {
        let line = if every {
            unmark_line(&all[i], kind)
        } else {
            mark_line(&all[i], i, kind)
        };
        out.push(line);
        i += 1;
    }
    assert(Seq::new(out@.len(), |j: int| out@[j]@) =~= wanted);
    to_string(&join(&out, &to_chars("\n")))
}

pub fn toggle_rule(text: &str) -> (r: String)
    ensures
        r@ == rule_toggled(text@),
{
    let source = to_chars(text);
    let mut t = trim(&source);
    if same(&t, "---") || same(&t, "***") || same(&t, "___") {
        return String::new();
    }
    if t.len() == 0 {
        String::from_str("---")
    } else {
        append_str(&mut t, "\n\n---");
        to_string(&t)
    }
}

/// Whether `v` holds the characters of `s`.
fn same(v: &Vec<char>, s: &str) -> (r: bool)
    ensures
        r == (v@ == s@),
{
    let p = to_chars(s);
    let r = p.len() == v.len() && starts_with(v, &p);
    proof {
        if r {
            assert(v@.subrange(0, p@.len() as int) =~= v@);
        }
    }
    r
}

} // verus!
