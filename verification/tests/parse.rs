use cedilla::markdown::content::parse;
use cedilla::markdown::model::{
    Alignment, Bullet, Column, HeadingLevel, Item, Row, Span, Text, Url,
};

fn plain(text: &str) -> Span {
    Span::Standard {
        text: String::from(text),
        strikethrough: false,
        link: None,
        strong: false,
        emphasis: false,
        code: false,
    }
}

fn paragraph(text: &str) -> Item {
    Item::Paragraph(Text { spans: vec![plain(text)] })
}

#[test]
fn heading_of_level_one() {
    assert_eq!(
        parse("# Title"),
        vec![Item::Heading(HeadingLevel::H1, Text { spans: vec![plain("Title")] })]
    );
}

#[test]
fn heading_of_level_six() {
    assert_eq!(
        parse("###### Deep"),
        vec![Item::Heading(HeadingLevel::H6, Text { spans: vec![plain("Deep")] })]
    );
}

#[test]
fn every_heading_level_is_told_apart() {
    let items = parse("# a\n## b\n### c\n#### d\n##### e\n###### f");
    let levels: Vec<HeadingLevel> = items
        .iter()
        .map(|item| match item {
            Item::Heading(level, _) => *level,
            other => panic!("not a heading: {:?}", other),
        })
        .collect();
    assert_eq!(
        levels,
        vec![
            HeadingLevel::H1,
            HeadingLevel::H2,
            HeadingLevel::H3,
            HeadingLevel::H4,
            HeadingLevel::H5,
            HeadingLevel::H6
        ]
    );
}

#[test]
fn parsing_twice_gives_the_same_blocks() {
    let text = "# Title\n\nSome *text* with `code`.\n\n- a\n- b\n\n> quote\n\n---\n";
    assert_eq!(parse(text), parse(text));
}

#[test]
fn task_list_markers() {
    assert_eq!(
        parse("- [x] done\n- [ ] todo"),
        vec![Item::List {
            start: None,
            bullets: vec![
                Bullet::Task { items: vec![paragraph("done")], done: true },
                Bullet::Task { items: vec![paragraph("todo")], done: false },
            ],
        }]
    );
}

#[test]
fn ordered_list_keeps_its_first_number() {
    assert_eq!(
        parse("3. a\n4. b"),
        vec![Item::List {
            start: Some(3),
            bullets: vec![
                Bullet::Point { items: vec![paragraph("a")] },
                Bullet::Point { items: vec![paragraph("b")] },
            ],
        }]
    );
}

#[test]
fn nested_list_goes_into_its_entry() {
    assert_eq!(
        parse("- a\n  - b\n"),
        vec![Item::List {
            start: None,
            bullets: vec![Bullet::Point {
                items: vec![
                    paragraph("a"),
                    Item::List {
                        start: None,
                        bullets: vec![Bullet::Point { items: vec![paragraph("b")] }],
                    },
                ],
            }],
        }]
    );
}

#[test]
fn image_with_unsupported_scheme_is_dropped() {
    assert_eq!(parse("![alt](ftp://x/y.png)"), Vec::<Item>::new());
}

#[test]
fn image_that_is_no_url_is_dropped() {
    assert_eq!(parse("![alt](relative/y.png)"), Vec::<Item>::new());
    assert_eq!(parse("![*styled* `alt`](y.png \"t\")"), Vec::<Item>::new());
}

#[test]
fn text_around_a_dropped_image_stays() {
    assert_eq!(
        parse("before ![alt](ftp://x/y.png) after"),
        vec![Item::Paragraph(Text { spans: vec![plain("before "), plain(" after")] })]
    );
    assert_eq!(
        parse("# T ![a](x.png)\n\n- ![b](y.png) c\n"),
        vec![
            Item::Heading(HeadingLevel::H1, Text { spans: vec![plain("T ")] }),
            Item::List {
                start: None,
                bullets: vec![Bullet::Point { items: vec![paragraph(" c")] }],
            },
        ]
    );
}

#[test]
fn code_block_without_a_language_has_plain_lines() {
    for text in ["```\nx\ny\n```", "    x\n    y\n"] {
        assert_eq!(
            parse(text),
            vec![Item::CodeBlock {
                language: None,
                code: String::from("x\ny\n"),
                lines: vec![Text { spans: vec![plain("x")] }, Text { spans: vec![plain("y")] }],
            }],
            "{:?}",
            text
        );
    }
}

#[test]
fn image_with_file_scheme_is_kept() {
    assert_eq!(
        parse("![alt](file:///tmp/y.png)"),
        vec![Item::Image {
            url: Url { href: String::from("file:///tmp/y.png"), scheme: String::from("file") },
            title: String::new(),
            alt: Text { spans: vec![plain("alt")] },
        }]
    );
}

#[test]
fn image_with_title_and_text_around_it() {
    assert_eq!(
        parse("before ![alt](https://x.org/y.png \"shown\") after"),
        vec![
            Item::Image {
                url: Url {
                    href: String::from("https://x.org/y.png"),
                    scheme: String::from("https"),
                },
                title: String::from("shown"),
                alt: Text { spans: vec![plain("before "), plain("alt")] },
            },
            paragraph(" after"),
        ]
    );
}

#[test]
fn link_with_web_scheme_is_active() {
    let target = Url { href: String::from("http://x/"), scheme: String::from("http") };
    assert_eq!(
        parse("[a](http://x)"),
        vec![Item::Paragraph(Text {
            spans: vec![Span::Standard {
                text: String::from("a"),
                strikethrough: false,
                link: Some(target),
                strong: false,
                emphasis: false,
                code: false,
            }],
        })]
    );
}

#[test]
fn link_with_another_scheme_is_plain_text() {
    assert_eq!(parse("[a](mailto:me@x.org)"), vec![paragraph("a")]);
    assert_eq!(parse("[a](relative/path)"), vec![paragraph("a")]);
}

#[test]
fn undefined_reference_is_literal_text() {
    assert_eq!(
        parse("[a][ref]"),
        vec![Item::Paragraph(Text {
            spans: vec![plain("["), plain("a"), plain("]"), plain("["), plain("ref"), plain("]")],
        })]
    );
}

#[test]
fn inline_styles() {
    let styled = |text: &str, strong: bool, emphasis: bool, strikethrough: bool, code: bool| {
        Span::Standard {
            text: String::from(text),
            strikethrough,
            link: None,
            strong,
            emphasis,
            code,
        }
    };
    assert_eq!(
        parse("**b** *i* ~~s~~ `c` ***bi***"),
        vec![Item::Paragraph(Text {
            spans: vec![
                styled("b", true, false, false, false),
                plain(" "),
                styled("i", false, true, false, false),
                plain(" "),
                styled("s", false, false, true, false),
                plain(" "),
                styled("c", false, false, false, true),
                plain(" "),
                styled("bi", true, true, false, false),
            ],
        })]
    );
}

#[test]
fn breaks_become_spans() {
    assert_eq!(
        parse("a\nb  \nc"),
        vec![Item::Paragraph(Text {
            spans: vec![plain("a"), plain(" "), plain("b"), plain("\n"), plain("c")],
        })]
    );
}

#[test]
fn quote_and_rule() {
    assert_eq!(
        parse("> q\n\n---\n"),
        vec![Item::Quote(vec![paragraph("q")]), Item::Rule]
    );
}

#[test]
fn table_alignment_follows_the_separator_row() {
    let items = parse("| a | b |\n|--:|:-:|\n| 1 | 2 |\n| 3 | 4 |\n");
    let strong = |text: &str| {
        Item::Paragraph(Text {
            spans: vec![Span::Standard {
                text: String::from(text),
                strikethrough: false,
                link: None,
                strong: true,
                emphasis: false,
                code: false,
            }],
        })
    };
    assert_eq!(
        items,
        vec![Item::Table {
            columns: vec![
                Column { header: vec![strong("a")], alignment: Alignment::Right },
                Column { header: vec![strong("b")], alignment: Alignment::Center },
            ],
            rows: vec![
                Row { cells: vec![vec![paragraph("1")], vec![paragraph("2")]] },
                Row { cells: vec![vec![paragraph("3")], vec![paragraph("4")]] },
            ],
        }]
    );
}

#[test]
fn table_alignment_does_not_depend_on_the_rows() {
    let alignments = |text: &str| -> Vec<Alignment> {
        match parse(text).pop() {
            Some(Item::Table { columns, .. }) => columns.iter().map(|c| c.alignment).collect(),
            other => panic!("not a table: {:?}", other),
        }
    };
    let expected = vec![Alignment::Right, Alignment::Center];
    assert_eq!(alignments("| a | b |\n|--:|:-:|\n"), expected);
    assert_eq!(alignments("| a | b |\n|--:|:-:|\n| x |\n"), expected);
    assert_eq!(alignments("| a | b |\n|--:|:-:|\n| 1 | 2 | 3 |\n| **4** | |\n"), expected);
    assert_eq!(
        alignments("| a | b | c |\n|---|:--|--:|\n"),
        vec![Alignment::Unset, Alignment::Left, Alignment::Right]
    );
}

#[test]
fn code_block_keeps_its_language_and_code() {
    let items = parse("```rust\nfn main() {}\nlet x = 1;\n```\n");
    assert_eq!(items.len(), 1);
    match &items[0] {
        Item::CodeBlock { language, code, lines } => {
            assert_eq!(language.as_deref(), Some("rust"));
            assert_eq!(code, "fn main() {}\nlet x = 1;\n");
            assert_eq!(lines.len(), 2);
            let text_of = |line: &Text| -> String {
                line.spans
                    .iter()
                    .map(|span| match span {
                        Span::Highlight { text, .. } => text.clone(),
                        Span::Standard { .. } => panic!("a line of code is highlighted"),
                    })
                    .collect()
            };
            assert_eq!(text_of(&lines[0]), "fn main() {}");
            assert_eq!(text_of(&lines[1]), "let x = 1;");
            assert!(lines[0].spans.len() > 1);
            assert!(lines[0]
                .spans
                .iter()
                .any(|span| matches!(span, Span::Highlight { color: Some(_), .. })));
        }
        other => panic!("not a code block: {:?}", other),
    }
}

#[test]
fn indented_code_block_has_no_language() {
    let items = parse("    plain\n");
    assert_eq!(items.len(), 1);
    match &items[0] {
        Item::CodeBlock { language, code, lines } => {
            assert_eq!(*language, None);
            assert_eq!(code, "plain\n");
            assert_eq!(lines.len(), 1);
        }
        other => panic!("not a code block: {:?}", other),
    }
}

#[test]
fn empty_text_has_no_blocks() {
    assert_eq!(parse(""), Vec::<Item>::new());
    assert_eq!(parse("\n\n"), Vec::<Item>::new());
}

#[test]
fn text_of_several_bytes_per_character() {
    assert_eq!(parse("héllo — wörld"), vec![paragraph("héllo — wörld")]);
}
