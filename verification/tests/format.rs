use cedilla::format::{
    format_selected_text, strip_any_list_marker, toggle_code_block, toggle_heading,
    toggle_hyperlink, toggle_image, toggle_inline, toggle_list, toggle_rule, ListKind,
    SelectionAction,
};

#[test]
fn heading_is_added_to_plain_text() {
    assert_eq!(toggle_heading("Title", 1), "# Title");
    assert_eq!(toggle_heading("  Title \n", 3), "### Title");
}

#[test]
fn heading_of_the_same_level_is_removed() {
    assert_eq!(toggle_heading("# Title", 1), "Title");
    assert_eq!(toggle_heading("  ### x  ", 3), "x");
    assert_eq!(toggle_heading("##", 2), "");
}

#[test]
fn heading_of_another_level_is_replaced() {
    assert_eq!(toggle_heading("## Title", 1), "# Title");
    assert_eq!(toggle_heading("# Title", 4), "#### Title");
    assert_eq!(toggle_heading("#Title", 1), "# Title");
}

#[test]
fn heading_of_nothing_is_the_bare_mark() {
    assert_eq!(toggle_heading("", 2), "## ");
    assert_eq!(toggle_heading("   ", 6), "###### ");
    assert_eq!(toggle_heading("####", 2), "## ");
    assert_eq!(toggle_heading("###", 2), "## ");
}

#[test]
fn heading_of_level_zero_only_puts_a_space() {
    assert_eq!(toggle_heading("x", 0), " x");
    assert_eq!(toggle_heading(" x", 0), " x");
    assert_eq!(toggle_heading("", 0), "");
}

#[test]
fn inline_marker_wraps_and_unwraps() {
    assert_eq!(toggle_inline("bold", "**"), "**bold**");
    assert_eq!(toggle_inline("**bold**", "**"), "bold");
    assert_eq!(toggle_inline(" code ", "`"), "`code`");
    assert_eq!(toggle_inline("`code`", "`"), "code");
    assert_eq!(toggle_inline("*i*", "*"), "i");
}

#[test]
fn inline_marker_on_nothing_is_the_marker() {
    assert_eq!(toggle_inline("", "**"), "**");
    assert_eq!(toggle_inline(" \t", "`"), "`");
}

#[test]
fn italics_go_around_bold_text() {
    assert_eq!(toggle_inline("**bold**", "*"), "***bold***");
    assert_eq!(toggle_inline("**", "*"), "****");
}

#[test]
fn inline_marker_needs_text_between_the_markers() {
    assert_eq!(toggle_inline("****", "**"), "********");
    assert_eq!(toggle_inline("***", "**"), "*******");
    assert_eq!(toggle_inline("*****", "**"), "*");
    assert_eq!(toggle_inline("``", "`"), "````");
}

#[test]
fn inline_marker_of_several_bytes() {
    assert_eq!(toggle_inline("éxé", "é"), "x");
    assert_eq!(toggle_inline("éé", "é"), "éééé");
}

#[test]
fn hyperlink_cases() {
    assert_eq!(toggle_hyperlink(""), "[](url)");
    assert_eq!(toggle_hyperlink("[a](b)"), "a");
    assert_eq!(toggle_hyperlink("[](b)"), "");
    assert_eq!(toggle_hyperlink("http://x.y"), "[http://x.y](http://x.y)");
    assert_eq!(toggle_hyperlink("https://x.y "), "[https://x.y](https://x.y)");
    assert_eq!(toggle_hyperlink("text"), "[text](url)");
    assert_eq!(toggle_hyperlink("[text"), "[[text](url)");
    assert_eq!(toggle_hyperlink("[a](b)(c](d)"), "a");
}

#[test]
fn code_block_cases() {
    assert_eq!(toggle_code_block(""), "```\n\n```");
    assert_eq!(toggle_code_block("code"), "```\ncode\n```");
    assert_eq!(toggle_code_block("```\ncode\n```"), "code");
    assert_eq!(toggle_code_block("```rust\nfn main() {}\n```"), "fn main() {}");
    assert_eq!(toggle_code_block("```a b\ncode```"), "a b\ncode");
    assert_eq!(toggle_code_block("```c-x_1\n\n x \n```"), "x");
    assert_eq!(toggle_code_block("``````"), "```\n``````\n```");
    assert_eq!(toggle_code_block("```x```"), "x");
    assert_eq!(toggle_code_block("`````"), "```\n`````\n```");
}

#[test]
fn image_cases() {
    assert_eq!(toggle_image(""), "![alt text](image-url)");
    assert_eq!(toggle_image("![alt](src.png)"), "alt");
    assert_eq!(toggle_image("https://x/y.png"), "![alt text](https://x/y.png)");
    assert_eq!(toggle_image("cat"), "![cat](image-url)");
    assert_eq!(toggle_image("[a](b)"), "![[a](b)](image-url)");
}

#[test]
fn list_of_nothing_is_the_first_mark() {
    assert_eq!(toggle_list("", ListKind::Bulleted), "- ");
    assert_eq!(toggle_list(" \n ", ListKind::Numbered), "1. ");
    assert_eq!(toggle_list("", ListKind::Checkbox), "- [ ] ");
}

#[test]
fn list_marks_are_put_on() {
    assert_eq!(toggle_list("a\nb", ListKind::Bulleted), "- a\n- b");
    assert_eq!(toggle_list("a\n\nb", ListKind::Numbered), "1. a\n2. \n3. b");
    assert_eq!(toggle_list("a\r\n  b  \n", ListKind::Checkbox), "- [ ] a\n- [ ] b");
    assert_eq!(toggle_list("- a", ListKind::Checkbox), "- [ ] a");
    assert_eq!(toggle_list("- [ ] a", ListKind::Bulleted), "- a");
    assert_eq!(toggle_list("1. a\nb", ListKind::Bulleted), "- a\n- b");
    assert_eq!(toggle_list("* a\n+ b\nc", ListKind::Numbered), "1. a\n2. b\n3. c");
}

#[test]
fn list_marks_come_off() {
    assert_eq!(toggle_list("- a\n- b", ListKind::Bulleted), "a\nb");
    assert_eq!(toggle_list("- a\n\n* b\n+ c", ListKind::Bulleted), "a\n\nb\nc");
    assert_eq!(toggle_list("1. a\n2. b", ListKind::Numbered), "a\nb");
    assert_eq!(toggle_list("- [ ] a\n- [x] b\n- [X] c", ListKind::Checkbox), "a\nb\nc");
    assert_eq!(toggle_list("- - a", ListKind::Bulleted), "a");
    assert_eq!(toggle_list("1x. a", ListKind::Numbered), "a");
    assert_eq!(toggle_list("- [ ]a", ListKind::Checkbox), "- [ ]a");
}

#[test]
fn numbered_list_counts_past_nine() {
    let text = "a\nb\nc\nd\ne\nf\ng\nh\ni\nj\nk";
    assert_eq!(
        toggle_list(text, ListKind::Numbered),
        "1. a\n2. b\n3. c\n4. d\n5. e\n6. f\n7. g\n8. h\n9. i\n10. j\n11. k"
    );
}

#[test]
fn any_list_marker_is_stripped() {
    assert_eq!(strip_any_list_marker("- [ ] a"), "a");
    assert_eq!(strip_any_list_marker("- [x] a"), "a");
    assert_eq!(strip_any_list_marker("- [X] a"), "a");
    assert_eq!(strip_any_list_marker("- a"), "a");
    assert_eq!(strip_any_list_marker("* a"), "a");
    assert_eq!(strip_any_list_marker("+ a"), "a");
    assert_eq!(strip_any_list_marker("12. x"), "x");
    assert_eq!(strip_any_list_marker("a. x"), "a. x");
    assert_eq!(strip_any_list_marker(". x"), "x");
    assert_eq!(strip_any_list_marker("x. 1. y"), "x. 1. y");
    assert_eq!(strip_any_list_marker("plain"), "plain");
    assert_eq!(strip_any_list_marker("٣. x"), "x");
}

#[test]
fn rule_cases() {
    assert_eq!(toggle_rule("---"), "");
    assert_eq!(toggle_rule(" *** "), "");
    assert_eq!(toggle_rule("___"), "");
    assert_eq!(toggle_rule(""), "---");
    assert_eq!(toggle_rule("abc"), "abc\n\n---");
    assert_eq!(toggle_rule("----"), "----\n\n---");
}

#[test]
fn white_space_of_unicode_is_trimmed() {
    assert_eq!(toggle_rule("\u{00A0}\u{3000}abc\u{2003}\u{0085}"), "abc\n\n---");
    assert_eq!(toggle_rule("\u{200B}abc"), "\u{200B}abc\n\n---");
}

#[test]
fn every_action_is_dispatched() {
    assert_eq!(format_selected_text("t", &SelectionAction::Heading1), "# t");
    assert_eq!(format_selected_text("t", &SelectionAction::Heading2), "## t");
    assert_eq!(format_selected_text("t", &SelectionAction::Heading3), "### t");
    assert_eq!(format_selected_text("t", &SelectionAction::Heading4), "#### t");
    assert_eq!(format_selected_text("t", &SelectionAction::Heading5), "##### t");
    assert_eq!(format_selected_text("t", &SelectionAction::Heading6), "###### t");
    assert_eq!(format_selected_text("t", &SelectionAction::Bold), "**t**");
    assert_eq!(format_selected_text("t", &SelectionAction::Italic), "*t*");
    assert_eq!(format_selected_text("t", &SelectionAction::Hyperlink), "[t](url)");
    assert_eq!(format_selected_text("t", &SelectionAction::Code), "`t`");
    assert_eq!(format_selected_text("t", &SelectionAction::CodeBlock), "```\nt\n```");
    assert_eq!(format_selected_text("t", &SelectionAction::Image), "![t](image-url)");
    assert_eq!(format_selected_text("t", &SelectionAction::BulletedList), "- t");
    assert_eq!(format_selected_text("t", &SelectionAction::NumberedList), "1. t");
    assert_eq!(format_selected_text("t", &SelectionAction::CheckboxList), "- [ ] t");
    assert_eq!(format_selected_text("t", &SelectionAction::Rule), "t\n\n---");
}
