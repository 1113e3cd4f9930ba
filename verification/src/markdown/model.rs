//! The document model: blocks, bullets, table parts and styled text, each with
//! the mathematical value that contracts speak of.

use vstd::prelude::*;
use crate::text::lemma_push_to_set;

verus! {

/// The level of a heading, from the largest to the smallest.
#[derive(Clone, Copy, Debug, PartialEq, Eq, Structural)]
pub enum HeadingLevel {
    H1,
    H2,
    H3,
    H4,
    H5,
    H6,
}

/// How the cells of a table column are aligned.
#[derive(Clone, Copy, Debug, PartialEq, Eq, Structural)]
pub enum Alignment {
    Unset,
    Left,
    Center,
    Right,
}

/// A colour with eight bits per channel.
#[derive(Clone, Copy, Debug, PartialEq, Eq, Structural)]
pub struct Rgba {
    pub r: u8,
    pub g: u8,
    pub b: u8,
    pub a: u8,
}

/// The weight and slant that a highlighted run of code asks for.
#[derive(Clone, Copy, Debug, PartialEq, Eq, Structural)]
pub struct Face {
    pub bold: bool,
    pub italic: bool,
}

/// An absolute URL: its serialisation and its scheme.
#[derive(Debug, PartialEq, Eq)]
pub struct Url {
    pub href: String,
    pub scheme: String,
}

/// The value of a [`Url`].
pub struct UrlView {
    pub href: Seq<char>,
    pub scheme: Seq<char>,
}

impl View for Url {
    type V = UrlView;

    open spec fn view(&self) -> UrlView {
        UrlView { href: self.href@, scheme: self.scheme@ }
    }
}

impl Clone for Url {
    fn clone(&self) -> (copy: Self)
        ensures
            copy@ == self@,
    {
        Url { href: self.href.clone(), scheme: self.scheme.clone() }
    }
}

/// The set of the serialisations of `urls`.
pub open spec fn hrefs(urls: Seq<Url>) -> Set<Seq<char>> {
    Seq::new(urls.len(), |i: int| urls[i].href@).to_set()
}

/// Adds `url` to `urls` unless a URL with the same serialisation is there.
pub fn insert_url(urls: &mut Vec<Url>, url: Url)
    ensures
        hrefs(final(urls)@) == hrefs(old(urls)@).insert(url.href@),
        final(urls)@ == old(urls)@ || final(urls)@ == old(urls)@.push(url),
{
    let ghost known = Seq::new(urls@.len(), |i: int| urls@[i].href@);
    let mut i: usize = 0;
    while i < urls.len()
        invariant
            i <= urls.len(),
            *urls == *old(urls),
            known == Seq::new(urls@.len(), |i: int| urls@[i].href@),
            forall|j: int| 0 <= j < i ==> urls@[j].href@ != url.href@,
        decreases urls.len() - i,
    {
        if urls[i].href == url.href {
            assert(known[i as int] == url.href@);
            return ;
        }
        i += 1;
    }
    urls.push(url);
    proof {
        lemma_push_to_set(known, url.href@);
        assert(Seq::new(urls@.len(), |i: int| urls@[i].href@) =~= known.push(url.href@));
    }
}

/// What `url::Url::parse` makes of a text: the serialisation and the scheme
/// of the URL that it reads, or nothing where it reads none.
pub uninterp spec fn parsed_url(text: Seq<char>) -> Option<UrlView>;

/// Calls `url::Url::parse` and keeps, of a URL that was read, what
/// `Url::as_str` and `Url::scheme` return.
#[verifier::external_body]
pub(crate) fn parse_url(text: &str) -> (url: Option<Url>)
    ensures
        link_view(url) == parsed_url(text@),
{
    url::Url::parse(text).ok().map(
        |url| Url { href: url.as_str().to_owned(), scheme: url.scheme().to_owned() },
    )
}

/// A run of text with one style.
#[derive(Debug, PartialEq, Eq)]
pub enum Span {
    /// Text of a paragraph, a heading or an unhighlighted line of code.
    Standard {
        text: String,
        strikethrough: bool,
        link: Option<Url>,
        strong: bool,
        emphasis: bool,
        code: bool,
    },
    /// A token of a highlighted line of code.
    Highlight { text: String, color: Option<Rgba>, font: Option<Face> },
}

/// The value of a [`Span`].
pub enum SpanView {
    Standard {
        text: Seq<char>,
        strikethrough: bool,
        link: Option<UrlView>,
        strong: bool,
        emphasis: bool,
        code: bool,
    },
    Highlight { text: Seq<char>, color: Option<Rgba>, font: Option<Face> },
}

pub open spec fn link_view(link: Option<Url>) -> Option<UrlView> {
    match link {
        Some(url) => Some(url@),
        None => None,
    }
}

impl View for Span {
    type V = SpanView;

    open spec fn view(&self) -> SpanView {
        match *self {
            Span::Standard { text, strikethrough, link, strong, emphasis, code } => {
                SpanView::Standard {
                    text: text@,
                    strikethrough,
                    link: link_view(link),
                    strong,
                    emphasis,
                    code,
                }
            },
            Span::Highlight { text, color, font } => SpanView::Highlight { text: text@, color, font },
        }
    }
}

impl Clone for Span {
    fn clone(&self) -> (copy: Self)
        ensures
            copy@ == self@,
    {
        match self {
            Span::Standard { text, strikethrough, link, strong, emphasis, code } => {
                let link = match link {
                    Some(url) => Some(url.clone()),
                    None => None,
                };
                Span::Standard {
                    text: text.clone(),
                    strikethrough: *strikethrough,
                    link,
                    strong: *strong,
                    emphasis: *emphasis,
                    code: *code,
                }
            },
            Span::Highlight { text, color, font } => Span::Highlight {
                text: text.clone(),
                color: *color,
                font: *font,
            },
        }
    }
}

/// A copy of `spans`.
pub fn clone_spans(spans: &Vec<Span>) -> (copy: Vec<Span>)
    ensures
        spans_view(copy@) == spans_view(spans@),
{
    let mut copy: Vec<Span> = Vec::new();
    let mut i: usize = 0;
    while i < spans.len()
        invariant
            i <= spans.len(),
            copy@.len() == i,
            forall|j: int| 0 <= j < i ==> copy@[j]@ == spans@[j]@,
        decreases spans.len() - i,
    {
        copy.push(spans[i].clone());
        i += 1;
    }
    copy
}

/// The values of a sequence of spans.
pub open spec fn spans_view(spans: Seq<Span>) -> Seq<SpanView> {
    Seq::new(spans.len(), |i: int| spans[i]@)
}

/// Styled text: spans in reading order.
#[derive(Debug, PartialEq, Eq)]
pub struct Text {
    pub spans: Vec<Span>,
}

impl View for Text {
    type V = Seq<SpanView>;

    open spec fn view(&self) -> Seq<SpanView> {
        spans_view(self.spans@)
    }
}

impl Clone for Text {
    fn clone(&self) -> (copy: Self)
        ensures
            copy@ == self@,
    {
        Text { spans: clone_spans(&self.spans) }
    }
}

/// The values of a sequence of texts.
pub open spec fn texts_view(texts: Seq<Text>) -> Seq<Seq<SpanView>> {
    Seq::new(texts.len(), |i: int| texts[i]@)
}

/// An entry of a list.
#[derive(Debug, PartialEq, Eq)]
pub enum Bullet {
    /// A plain entry.
    Point { items: Vec<Item> },
    /// An entry with a checkbox.
    Task { items: Vec<Item>, done: bool },
}

/// A column of a table.
#[derive(Debug, PartialEq, Eq)]
pub struct Column {
    pub header: Vec<Item>,
    pub alignment: Alignment,
}

/// A body row of a table.
#[derive(Debug, PartialEq, Eq)]
pub struct Row {
    pub cells: Vec<Vec<Item>>,
}

/// A block of a document.
#[derive(Debug, PartialEq, Eq)]
pub enum Item {
    Heading(HeadingLevel, Text),
    Paragraph(Text),
    CodeBlock { language: Option<String>, code: String, lines: Vec<Text> },
    List { start: Option<u64>, bullets: Vec<Bullet> },
    Image { url: Url, title: String, alt: Text },
    Quote(Vec<Item>),
    Rule,
    Table { columns: Vec<Column>, rows: Vec<Row> },
}

/// The value of a [`Bullet`].
pub enum BulletView {
    Point { items: Seq<ItemView> },
    Task { items: Seq<ItemView>, done: bool },
}

/// The value of a [`Column`].
pub struct ColumnView {
    pub header: Seq<ItemView>,
    pub alignment: Alignment,
}

/// The value of an [`Item`].
pub enum ItemView {
    Heading(HeadingLevel, Seq<SpanView>),
    Paragraph(Seq<SpanView>),
    CodeBlock { language: Option<Seq<char>>, code: Seq<char>, lines: Seq<Seq<SpanView>> },
    List { start: Option<u64>, bullets: Seq<BulletView> },
    Image { url: UrlView, title: Seq<char>, alt: Seq<SpanView> },
    Quote(Seq<ItemView>),
    Rule,
    Table { columns: Seq<ColumnView>, rows: Seq<Seq<Seq<ItemView>>> },
}

pub open spec fn language_view(language: Option<String>) -> Option<Seq<char>> {
    match language {
        Some(name) => Some(name@),
        None => None,
    }
}

/// The value of a block.
pub open spec fn item_view(item: Item) -> ItemView
    decreases item,
{
    match item {
        Item::Heading(level, text) => ItemView::Heading(level, text@),
        Item::Paragraph(text) => ItemView::Paragraph(text@),
        Item::CodeBlock { language, code, lines } => ItemView::CodeBlock {
            language: language_view(language),
            code: code@,
            lines: texts_view(lines@),
        },
        Item::List { start, bullets } => ItemView::List { start, bullets: bullets_view(bullets) },
        Item::Image { url, title, alt } => ItemView::Image { url: url@, title: title@, alt: alt@ },
        Item::Quote(items) => ItemView::Quote(items_view(items)),
        Item::Rule => ItemView::Rule,
        Item::Table { columns, rows } => ItemView::Table {
            columns: columns_view(columns),
            rows: rows_view(rows),
        },
    }
}

/// The values of a sequence of blocks.
pub open spec fn items_view(items: Vec<Item>) -> Seq<ItemView>
    decreases items,
{
    Seq::new(
        items.len() as nat,
        |i: int|
            if 0 <= i < items.len() {
                item_view(items[i])
            } else {
                ItemView::Rule
            },
    )
}

pub open spec fn bullet_view(bullet: Bullet) -> BulletView
    decreases bullet,
{
    match bullet {
        Bullet::Point { items } => BulletView::Point { items: items_view(items) },
        Bullet::Task { items, done } => BulletView::Task { items: items_view(items), done },
    }
}

pub open spec fn bullets_view(bullets: Vec<Bullet>) -> Seq<BulletView>
    decreases bullets,
{
    Seq::new(
        bullets.len() as nat,
        |i: int|
            if 0 <= i < bullets.len() {
                bullet_view(bullets[i])
            } else {
                BulletView::Point { items: Seq::empty() }
            },
    )
}

pub open spec fn column_view(column: Column) -> ColumnView
    decreases column,
{
    ColumnView { header: items_view(column.header), alignment: column.alignment }
}

pub open spec fn columns_view(columns: Vec<Column>) -> Seq<ColumnView>
    decreases columns,
{
    Seq::new(
        columns.len() as nat,
        |i: int|
            if 0 <= i < columns.len() {
                column_view(columns[i])
            } else {
                ColumnView { header: Seq::empty(), alignment: Alignment::Unset }
            },
    )
}

pub open spec fn cells_view(cells: Vec<Vec<Item>>) -> Seq<Seq<ItemView>>
    decreases cells,
{
    Seq::new(
        cells.len() as nat,
        |i: int|
            if 0 <= i < cells.len() {
                items_view(cells[i])
            } else {
                Seq::empty()
            },
    )
}

pub open spec fn rows_view(rows: Vec<Row>) -> Seq<Seq<Seq<ItemView>>>
    decreases rows,
{
    Seq::new(
        rows.len() as nat,
        |i: int|
            if 0 <= i < rows.len() {
                cells_view(rows[i].cells)
            } else {
                Seq::empty()
            },
    )
}

} // verus!
