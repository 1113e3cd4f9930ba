use cedilla::markdown::content::parse;
use cedilla::markdown::model::{
    Alignment, Column, Face, HeadingLevel, Item, Rgba, Row, Span, Text, Url,
};
use cedilla::images::ImageTable;
use cedilla::render::{
    code_block, heading, horizontal, image, item, items, look, number_width, ordered_list,
    paragraph, quote, rule, table, unordered_list, view, view_with, ColorChoice, DefaultViewer,
    FontChoice, Horizontal, ImageViewer, Kind, Look, Marker, Node, Settings, IMAGE_FAILED,
    IMAGE_LOADING, IMAGE_SENSOR_DELAY, IMAGE_WAITING,
};

fn plain(text: &str) -> Text {
    Text {
        spans: vec![Span::Standard {
            text: String::from(text),
            strikethrough: false,
            link: None,
            strong: false,
            emphasis: false,
            code: false,
        }],
    }
}

fn strong(text: &str) -> Text {
    Text {
        spans: vec![Span::Standard {
            text: String::from(text),
            strikethrough: false,
            link: None,
            strong: true,
            emphasis: false,
            code: false,
        }],
    }
}

fn leaf(kind: Kind, text: Option<Text>, nesting: usize) -> Node {
    Node { kind, text, nesting, children: Vec::new() }
}

fn group(kind: Kind, nesting: usize, children: Vec<Node>) -> Node {
    Node { kind, text: None, nesting, children }
}

#[test]
fn sizes_follow_from_the_base_size() {
    let settings = Settings::with_text_size(16);
    assert_eq!(settings.text_size, 16 * 8);
    assert_eq!(settings.h1_size, 32 * 8);
    assert_eq!(settings.h2_size, 28 * 8);
    assert_eq!(settings.h3_size, 24 * 8);
    assert_eq!(settings.h4_size, 20 * 8);
    assert_eq!(settings.h5_size, 16 * 8);
    assert_eq!(settings.h6_size, 16 * 8);
    assert_eq!(settings.code_size, 12 * 8);
    assert_eq!(settings.spacing, 14 * 8);
    assert_eq!(Settings::default(), settings);
    assert_eq!(Settings::with_text_size(15).h2_size, 210);
    assert_eq!(Settings::with_text_size(u16::MAX).h1_size, 16 * 65535);
    assert_eq!(Settings::with_text_size(0).spacing, 0);
}

#[test]
fn heading_sizes_by_level() {
    let settings = Settings::with_text_size(10);
    assert_eq!(settings.heading_size(HeadingLevel::H1), 160);
    assert_eq!(settings.heading_size(HeadingLevel::H2), 140);
    assert_eq!(settings.heading_size(HeadingLevel::H3), 120);
    assert_eq!(settings.heading_size(HeadingLevel::H4), 100);
    assert_eq!(settings.heading_size(HeadingLevel::H5), 80);
    assert_eq!(settings.heading_size(HeadingLevel::H6), 80);
}

#[test]
fn looks_of_spans() {
    let standard = |strong: bool, emphasis: bool, code: bool, link: bool, strikethrough: bool| {
        look(&Span::Standard {
            text: String::from("t"),
            strikethrough,
            link: link.then(|| Url { href: String::from("http://x/"), scheme: String::from("http") }),
            strong,
            emphasis,
            code,
        })
    };
    let body = Look {
        font: FontChoice::Body,
        color: ColorChoice::Inherited,
        boxed: false,
        strikethrough: false,
        clickable: false,
    };
    assert_eq!(standard(false, false, false, false, false), body);
    assert_eq!(
        standard(true, false, false, false, true),
        Look { font: FontChoice::Styled { bold: true, italic: false }, strikethrough: true, ..body }
    );
    assert_eq!(
        standard(true, true, false, false, false),
        Look { font: FontChoice::Styled { bold: true, italic: true }, ..body }
    );
    assert_eq!(
        standard(true, true, true, false, false),
        Look { font: FontChoice::InlineCode, color: ColorChoice::InlineCode, boxed: true, ..body }
    );
    assert_eq!(
        standard(false, false, false, true, false),
        Look { color: ColorChoice::Link, clickable: true, ..body }
    );
    assert_eq!(
        standard(false, false, true, true, false),
        Look {
            font: FontChoice::InlineCode,
            color: ColorChoice::Link,
            boxed: true,
            clickable: true,
            ..body
        }
    );
    let red = Rgba { r: 255, g: 0, b: 0, a: 255 };
    let bold = Face { bold: true, italic: false };
    assert_eq!(
        look(&Span::Highlight { text: String::from("fn"), color: Some(red), font: Some(bold) }),
        Look {
            font: FontChoice::Highlighted(bold),
            color: ColorChoice::Highlighted(red),
            ..body
        }
    );
    assert_eq!(
        look(&Span::Highlight { text: String::from("x"), color: None, font: None }),
        Look { font: FontChoice::Inherited, ..body }
    );
}

#[test]
fn cells_are_placed_by_alignment() {
    assert_eq!(horizontal(Alignment::Unset), Horizontal::Left);
    assert_eq!(horizontal(Alignment::Left), Horizontal::Left);
    assert_eq!(horizontal(Alignment::Center), Horizontal::Center);
    assert_eq!(horizontal(Alignment::Right), Horizontal::Right);
}

#[test]
fn width_of_the_numbers_of_a_list() {
    assert_eq!(number_width(0), 1);
    assert_eq!(number_width(1), 1);
    assert_eq!(number_width(2), 2);
    assert_eq!(number_width(10), 2);
    assert_eq!(number_width(11), 2);
    assert_eq!(number_width(100), 2);
    assert_eq!(number_width(101), 3);
    assert_eq!(number_width(10_000), 3);
    assert_eq!(number_width(10_001), 4);
    assert_eq!(number_width(u128::MAX), 21);
}

#[test]
fn elements_of_simple_blocks() {
    assert_eq!(
        heading(HeadingLevel::H2, &plain("t"), 0, 0),
        leaf(Kind::Heading { level: HeadingLevel::H2, padded: false }, Some(plain("t")), 0)
    );
    assert_eq!(
        heading(HeadingLevel::H2, &plain("t"), 3, 1),
        leaf(Kind::Heading { level: HeadingLevel::H2, padded: true }, Some(plain("t")), 1)
    );
    assert_eq!(paragraph(&plain("p"), 2), leaf(Kind::Paragraph, Some(plain("p")), 2));
    assert_eq!(rule(0), leaf(Kind::Rule, None, 0));
    assert_eq!(
        code_block(&vec![plain("a"), plain("b")], 0),
        group(
            Kind::CodeBlock,
            0,
            vec![
                leaf(Kind::CodeLine, Some(plain("a")), 0),
                leaf(Kind::CodeLine, Some(plain("b")), 0)
            ]
        )
    );
}

#[test]
fn elements_keep_order_and_nesting() {
    let blocks = parse("# T\n\n- a\n  1. x\n  2. y\n- [x] b\n\n> ## q\n> r\n\n---\n");
    let nodes = view(&blocks);
    assert_eq!(
        nodes,
        vec![
            leaf(Kind::Heading { level: HeadingLevel::H1, padded: false }, Some(plain("T")), 0),
            group(
                Kind::UnorderedList,
                0,
                vec![
                    group(
                        Kind::Entry(Marker::Bullet),
                        0,
                        vec![
                            leaf(Kind::Paragraph, Some(plain("a")), 1),
                            group(
                                Kind::OrderedList { number_width: 2 },
                                1,
                                vec![
                                    group(
                                        Kind::Entry(Marker::Number(String::from("1."))),
                                        1,
                                        vec![leaf(Kind::Paragraph, Some(plain("x")), 2)]
                                    ),
                                    group(
                                        Kind::Entry(Marker::Number(String::from("2."))),
                                        1,
                                        vec![leaf(Kind::Paragraph, Some(plain("y")), 2)]
                                    ),
                                ]
                            ),
                        ]
                    ),
                    group(
                        Kind::Entry(Marker::Checkbox(true)),
                        0,
                        vec![leaf(Kind::Paragraph, Some(plain("b")), 1)]
                    ),
                ]
            ),
            group(
                Kind::Quote,
                0,
                vec![
                    leaf(
                        Kind::Heading { level: HeadingLevel::H2, padded: false },
                        Some(plain("q")),
                        0
                    ),
                    leaf(Kind::Paragraph, Some(plain("r")), 0),
                ]
            ),
            leaf(Kind::Rule, None, 0),
        ]
    );
    assert_eq!(items(&DefaultViewer, &blocks, 0), nodes);
    assert_eq!(item(&DefaultViewer, &blocks[3], 3, 0), nodes[3]);
    assert_eq!(view_with(&blocks, &DefaultViewer), nodes);
}

#[test]
fn elements_of_lists() {
    let blocks = parse("9. a\n10. b\n");
    let nodes = view(&blocks);
    assert_eq!(nodes[0].kind, Kind::OrderedList { number_width: 2 });
    assert_eq!(nodes[0].children[0].kind, Kind::Entry(Marker::Number(String::from("9."))));
    assert_eq!(nodes[0].children[1].kind, Kind::Entry(Marker::Number(String::from("10."))));
    assert_eq!(nodes[0].children[0].children[0].nesting, 1);
    let entries = |count: usize| -> Vec<Node> { (0..count).map(|_| rule(0)).collect() };
    assert_eq!(
        ordered_list(9, entries(2), 3),
        group(Kind::OrderedList { number_width: 2 }, 3, entries(2))
    );
    assert_eq!(ordered_list(99, entries(2), 0).kind, Kind::OrderedList { number_width: 3 });
    assert_eq!(ordered_list(u64::MAX, entries(1), 0).kind, Kind::OrderedList { number_width: 11 });
    assert_eq!(unordered_list(entries(3), 4), group(Kind::UnorderedList, 4, entries(3)));
    let deep = Item::List {
        start: Some(u64::MAX),
        bullets: vec![
            cedilla::markdown::model::Bullet::Point { items: vec![] },
            cedilla::markdown::model::Bullet::Task { items: vec![Item::Rule], done: false },
        ],
    };
    let far = item(&DefaultViewer, &deep, 0, usize::MAX);
    assert_eq!(
        far.children[1].kind,
        Kind::Entry(Marker::Number(String::from("18446744073709551616.")))
    );
    assert_eq!(far.children[1].children[0].nesting, usize::MAX);
}

#[test]
fn elements_of_a_table() {
    let blocks = parse("| a | b |\n|--:|:-:|\n| 1 | 2 | 3 |\n");
    let cell = |place: Horizontal, text: &str| {
        group(Kind::Cell(place), 0, vec![leaf(Kind::Paragraph, Some(plain(text)), 0)])
    };
    let head = |text: &str| {
        group(Kind::HeadCell, 0, vec![leaf(Kind::Paragraph, Some(strong(text)), 0)])
    };
    let expected = group(
        Kind::Table,
        0,
        vec![
            group(Kind::TableHead, 0, vec![head("a"), head("b")]),
            group(
                Kind::TableBody,
                0,
                vec![group(
                    Kind::TableRow,
                    0,
                    vec![cell(Horizontal::Right, "1"), cell(Horizontal::Center, "2")]
                )]
            ),
        ],
    );
    assert_eq!(view(&blocks), vec![expected]);
    assert_eq!(table(rule(1), rule(2), 3), group(Kind::Table, 3, vec![rule(1), rule(2)]));
}

#[test]
fn cell_without_a_column_stands_to_the_left() {
    let columns = vec![Column { header: vec![], alignment: Alignment::Right }];
    let rows = vec![Row { cells: vec![vec![Item::Rule], vec![Item::Rule]] }];
    let node = item(&DefaultViewer, &Item::Table { columns, rows }, 0, 0);
    let row = &node.children[1].children[0];
    assert_eq!(row.children[0].kind, Kind::Cell(Horizontal::Right));
    assert_eq!(row.children[1].kind, Kind::Cell(Horizontal::Left));
}

#[test]
fn elements_of_a_quote_and_an_image() {
    let blocks = parse("![alt](https://x.org/a.png \"t\")\n");
    assert_eq!(
        view(&blocks),
        vec![leaf(
            Kind::Image {
                url: Url { href: String::from("https://x.org/a.png"), scheme: String::from("https") },
                title: String::from("t")
            },
            Some(plain("alt")),
            0
        )]
    );
    let url = Url { href: String::from("https://x.org/a.png"), scheme: String::from("https") };
    assert_eq!(image(&url, "t", &plain("alt"), 0), view(&blocks)[0]);
    assert_eq!(quote(view(&blocks), 1), group(Kind::Quote, 1, view(&blocks)));
}

#[test]
fn image_viewer_shows_images_by_the_state_of_their_loading() {
    let blocks = parse(
        "# T\n\n![a](https://x.org/a.png)\n\n- ![again](https://x.org/a.png)\n\n![b](https://x.org/b.png)\n\n![c](file:///c.png)\n\n![d](file:///d.png)\n",
    );
    let url = |href: &str, scheme: &str| Url { href: String::from(href), scheme: String::from(scheme) };
    let a = || url("https://x.org/a.png", "https");
    let mut images: ImageTable<u8> = ImageTable::new();
    let kinds = |images: &ImageTable<u8>| -> Vec<Kind> {
        let nodes = view_with(&blocks, &ImageViewer { images });
        assert_eq!(nodes.len(), 6);
        assert_eq!(nodes[0], view(&blocks).swap_remove(0));
        assert_eq!(nodes[2].kind, Kind::UnorderedList);
        let in_list = nodes[2].children[0].children[0].kind.clone_kind();
        vec![
            nodes[1].kind.clone_kind(),
            in_list,
            nodes[3].kind.clone_kind(),
            nodes[4].kind.clone_kind(),
            nodes[5].kind.clone_kind(),
        ]
    };
    assert_eq!(
        kinds(&images),
        vec![
            Kind::ImageSensor { url: a() },
            Kind::ImageSensor { url: a() },
            Kind::ImageSensor { url: url("https://x.org/b.png", "https") },
            Kind::ImageSensor { url: url("file:///c.png", "file") },
            Kind::ImageSensor { url: url("file:///d.png", "file") },
        ]
    );
    assert!(images.on_url_discovered("https://x.org/a.png"));
    assert!(images.on_url_discovered("https://x.org/b.png"));
    assert!(images.on_url_discovered("file:///c.png"));
    images.on_loaded("https://x.org/a.png", Some(1));
    images.on_loaded("file:///c.png", None);
    assert_eq!(
        kinds(&images),
        vec![
            Kind::Picture { url: a() },
            Kind::Picture { url: a() },
            Kind::ImageLoading,
            Kind::ImageFailed,
            Kind::ImageSensor { url: url("file:///d.png", "file") },
        ]
    );
    assert_eq!(IMAGE_LOADING, "Loading image...");
    assert_eq!(IMAGE_FAILED, "Failed to load image");
    assert_eq!(IMAGE_WAITING, "Loading...");
    assert_eq!(IMAGE_SENSOR_DELAY, 500);
}

/// Copies of kinds, which own their strings.
trait CloneKind {
    fn clone_kind(&self) -> Kind;
}

impl CloneKind for Kind {
    fn clone_kind(&self) -> Kind {
        match self {
            Kind::Picture { url } => Kind::Picture { url: url.clone() },
            Kind::ImageSensor { url } => Kind::ImageSensor { url: url.clone() },
            Kind::ImageLoading => Kind::ImageLoading,
            Kind::ImageFailed => Kind::ImageFailed,
            other => panic!("not the place of an image: {:?}", other),
        }
    }
}
