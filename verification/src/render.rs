//! From blocks to what is drawn: a tree of visual elements that keeps the
//! order and the nesting of the blocks, and the sizes that text is set in.

use vstd::prelude::*;
use crate::markdown::model::{
    bullet_view, bullets_view, cells_view, columns_view, item_view, items_view,
    language_view, rows_view, texts_view, Alignment, Bullet, BulletView, Column, ColumnView, Face, HeadingLevel,
    Item, ItemView, Rgba, Row, Span, SpanView, Text, Url, UrlView,
};
use crate::images::{ImageState, ImageTable, Placeholder};
use crate::text::{decimal, to_decimal, to_string};

verus! {

/// Sizes in eighths of a pixel, so that every size that follows from a base
/// size in whole pixels is a whole number.
#[derive(Clone, Copy, Debug, PartialEq, Eq, Structural)]
pub struct Settings {
    /// The size of ordinary text.
    pub text_size: u32,
    pub h1_size: u32,
    pub h2_size: u32,
    pub h3_size: u32,
    pub h4_size: u32,
    pub h5_size: u32,
    pub h6_size: u32,
    /// The size of the text of code blocks.
    pub code_size: u32,
    /// The space between two elements. Inside a list entry it is three
    /// fifths of what it is around the list.
    pub spacing: u32,
}

/// Inside a list entry the spacing is this many fifths of the spacing around
/// the list; an entry of a list inside a list entry takes the fraction again.
pub const NESTED_SPACING_FIFTHS: u32 = 3;

/// The settings that follow from a base size in pixels: headings of the first
/// four levels are 2, 1.75, 1.5 and 1.25 times the base size and the others of
/// the base size, code is 0.75 times and the spacing 0.875 times the base
/// size.
pub open spec fn settings_for(pixels: u16) -> Settings {
    Settings {
        text_size: (8 * pixels) as u32,
        h1_size: (16 * pixels) as u32,
        h2_size: (14 * pixels) as u32,
        h3_size: (12 * pixels) as u32,
        h4_size: (10 * pixels) as u32,
        h5_size: (8 * pixels) as u32,
        h6_size: (8 * pixels) as u32,
        code_size: (6 * pixels) as u32,
        spacing: (7 * pixels) as u32,
    }
}

impl Settings {
    /// The settings for text of `pixels` pixels.
    pub fn with_text_size(pixels: u16) -> (settings: Self)
        ensures
            settings == settings_for(pixels),
    {
        let base: u32 = pixels as u32;
        Settings {
            text_size: 8 * base,
            h1_size: 16 * base,
            h2_size: 14 * base,
            h3_size: 12 * base,
            h4_size: 10 * base,
            h5_size: 8 * base,
            h6_size: 8 * base,
            code_size: 6 * base,
            spacing: 7 * base,
        }
    }

    /// The size that headings of `level` are set in.
    pub open spec fn heading(self, level: HeadingLevel) -> u32 {
        match level {
            HeadingLevel::H1 => self.h1_size,
            HeadingLevel::H2 => self.h2_size,
            HeadingLevel::H3 => self.h3_size,
            HeadingLevel::H4 => self.h4_size,
            HeadingLevel::H5 => self.h5_size,
            HeadingLevel::H6 => self.h6_size,
        }
    }

    /// The size that headings of `level` are set in.
    pub fn heading_size(&self, level: HeadingLevel) -> (size: u32)
        ensures
            size == self.heading(level),
    {
        match level {
            HeadingLevel::H1 => self.h1_size,
            HeadingLevel::H2 => self.h2_size,
            HeadingLevel::H3 => self.h3_size,
            HeadingLevel::H4 => self.h4_size,
            HeadingLevel::H5 => self.h5_size,
            HeadingLevel::H6 => self.h6_size,
        }
    }
}

impl Default for Settings {
    /// The settings for text of sixteen pixels.
    fn default() -> (settings: Self)
        ensures
            settings == settings_for(16),
    {
        Settings::with_text_size(16)
    }
}

/// A heading of a level at or below the fourth is smaller than one of the
/// level above, and no heading is smaller than ordinary text or than code.
pub proof fn lemma_sizes_are_ordered(pixels: u16)
    ensures
        ({
            let s = settings_for(pixels);
            &&& s.h1_size >= s.h2_size >= s.h3_size >= s.h4_size >= s.h5_size == s.h6_size
            &&& s.h6_size == s.text_size
            &&& s.text_size >= s.spacing >= s.code_size
            &&& 4 * s.h1_size == 8 * s.text_size
            &&& 4 * s.h2_size == 7 * s.text_size
            &&& 4 * s.h3_size == 6 * s.text_size
            &&& 4 * s.h4_size == 5 * s.text_size
            &&& 4 * s.code_size == 3 * s.text_size
            &&& 8 * s.spacing == 7 * s.text_size
        }),
{
}

/// The font that a span is set in.
#[derive(Clone, Copy, Debug, PartialEq, Eq, Structural)]
pub enum FontChoice {
    /// The font of ordinary text.
    Body,
    /// The font of ordinary text, bold or italic or both.
    Styled { bold: bool, italic: bool },
    /// The font of inline code.
    InlineCode,
    /// The font of code blocks, bold or italic or both.
    Highlighted(Face),
    /// The font of the element that holds the span.
    Inherited,
}

/// The colour that a span is set in.
#[derive(Clone, Copy, Debug, PartialEq, Eq, Structural)]
pub enum ColorChoice {
    /// The colour of the element that holds the span.
    Inherited,
    /// The colour of links.
    Link,
    /// The colour of inline code.
    InlineCode,
    /// A colour of the highlighter.
    Highlighted(Rgba),
}

/// How a span looks.
#[derive(Clone, Copy, Debug, PartialEq, Eq, Structural)]
pub struct Look {
    pub font: FontChoice,
    pub color: ColorChoice,
    /// Whether the span has the background, border and padding of inline code.
    pub boxed: bool,
    pub strikethrough: bool,
    /// Whether a click on the span follows its link.
    pub clickable: bool,
}

/// How a span looks. Inline code has its own font, colour and box, whatever
/// else holds of it; other text is bold or italic as it is strong or
/// emphasised. A span with a link has the colour of links and can be clicked.
/// A highlighted span has the colour and the font that the highlighter gave
/// it.
pub open spec fn look_of(span: SpanView) -> Look {
    match span {
        SpanView::Standard { strikethrough, link, strong, emphasis, code, .. } => Look {
            font: if code {
                FontChoice::InlineCode
            } else if strong || emphasis {
                FontChoice::Styled { bold: strong, italic: emphasis }
            } else {
                FontChoice::Body
            },
            color: if link is Some {
                ColorChoice::Link
            } else if code {
                ColorChoice::InlineCode
            } else {
                ColorChoice::Inherited
            },
            boxed: code,
            strikethrough,
            clickable: link is Some,
        },
        SpanView::Highlight { color, font, .. } => Look {
            font: match font {
                Some(face) => FontChoice::Highlighted(face),
                None => FontChoice::Inherited,
            },
            color: match color {
                Some(rgba) => ColorChoice::Highlighted(rgba),
                None => ColorChoice::Inherited,
            },
            boxed: false,
            strikethrough: false,
            clickable: false,
        },
    }
}

/// How `span` looks.
pub fn look(span: &Span) -> (r: Look)
    ensures
        r == look_of(span@),
{
    match span {
        Span::Standard { strikethrough, link, strong, emphasis, code, .. } => {
            let font = if *code {
                FontChoice::InlineCode
            } else if *strong || *emphasis {
                FontChoice::Styled { bold: *strong, italic: *emphasis }
            } else {
                FontChoice::Body
            };
            let color = if link.is_some() {
                ColorChoice::Link
            } else if *code {
                ColorChoice::InlineCode
            } else {
                ColorChoice::Inherited
            };
            Look {
                font,
                color,
                boxed: *code,
                strikethrough: *strikethrough,
                clickable: link.is_some(),
            }
        },
        Span::Highlight { color, font, .. } => {
            let font = match font {
                Some(face) => FontChoice::Highlighted(*face),
                None => FontChoice::Inherited,
            };
            let color = match color {
                Some(rgba) => ColorChoice::Highlighted(*rgba),
                None => ColorChoice::Inherited,
            };
            Look { font, color, boxed: false, strikethrough: false, clickable: false }
        },
    }
}

/// Where the content of a table cell stands in its cell.
#[derive(Clone, Copy, Debug, PartialEq, Eq, Structural)]
pub enum Horizontal {
    Left,
    Center,
    Right,
}

/// Where the cells of a column with `alignment` hold their content: to the
/// left unless the column is centred or aligned to the right.
pub open spec fn horizontal_of(alignment: Alignment) -> Horizontal {
    match alignment {
        Alignment::Unset => Horizontal::Left,
        Alignment::Left => Horizontal::Left,
        Alignment::Center => Horizontal::Center,
        Alignment::Right => Horizontal::Right,
    }
}

/// Where the cells of a column with `alignment` hold their content.
pub fn horizontal(alignment: Alignment) -> (r: Horizontal)
    ensures
        r == horizontal_of(alignment),
{
    match alignment {
        Alignment::Unset => Horizontal::Left,
        Alignment::Left => Horizontal::Left,
        Alignment::Center => Horizontal::Center,
        Alignment::Right => Horizontal::Right,
    }
}

/// How many digits make room for every number up to `n`: the least `d` with
/// `n` at most ten to the power of `d`.
pub open spec fn digits_for(n: nat) -> nat
    decreases n,
{
    if n <= 1 {
        0
    } else {
        1 + digits_for((n + 9) / 10)
    }
}

/// How many times the size of the text the numbers of an ordered list are
/// wide, where the list counts up to `n`: one more than half the digits,
/// rounded up.
pub open spec fn number_width_for(n: nat) -> nat {
    (digits_for(n) + 1) / 2 + 1
}

/// How many times the size of the text the numbers of an ordered list are
/// wide, where the list counts up to `n`.
pub fn number_width(n: u128) -> (width: u32)
    ensures
        width == number_width_for(n as nat),
{
    let mut rest: u128 = n;
    let mut digits: u32 = 0;
    proof {
        lemma_digits_bound(n as nat);
    }
    while rest > 1
        invariant
            digits_for(n as nat) == digits + digits_for(rest as nat),
            digits as nat + digits_for(rest as nat) <= 40,
            rest <= n,
        decreases rest,
    {
        rest = (rest - 1) / 10 + 1;
        digits += 1;
    }
    (digits + 1) / 2 + 1
}

/// A number below ten to the power of thirty-nine needs at most thirty-nine
/// digits.
proof fn lemma_digits_bound(n: nat)
    ensures
        n <= u128::MAX ==> digits_for(n) <= 39,
        n > 1 ==> (n + 9) / 10 == (n - 1) / 10 + 1,
{
    if n <= u128::MAX {
        assert(power_of_ten(39) > u128::MAX) by {
            reveal_with_fuel(power_of_ten, 40);
        }
        lemma_digits_within(n, 39);
    }
}

/// Ten to the power of `d`.
pub open spec fn power_of_ten(d: nat) -> nat
    decreases d,
{
    if d == 0 {
        1
    } else {
        10 * power_of_ten((d - 1) as nat)
    }
}

proof fn lemma_digits_within(n: nat, d: nat)
    requires
        n <= power_of_ten(d),
    ensures
        digits_for(n) <= d,
    decreases d,
{
    if n > 1 && d > 0 {
        lemma_digits_within((n + 9) / 10, (d - 1) as nat);
    }
}

/// What stands before a list entry.
#[derive(Debug, PartialEq, Eq)]
pub enum Marker {
    /// A bullet.
    Bullet,
    /// A checkbox, ticked or not.
    Checkbox(bool),
    /// The number of the entry with a full stop.
    Number(String),
}

/// The value of a [`Marker`].
pub enum MarkerView {
    Bullet,
    Checkbox(bool),
    Number(Seq<char>),
}

impl View for Marker {
    type V = MarkerView;

    open spec fn view(&self) -> MarkerView {
        match *self {
            Marker::Bullet => MarkerView::Bullet,
            Marker::Checkbox(done) => MarkerView::Checkbox(done),
            Marker::Number(text) => MarkerView::Number(text@),
        }
    }
}

/// The words that stand for an image that is being loaded.
pub const IMAGE_LOADING: &'static str = "Loading image...";

/// The words that stand for an image that could not be loaded.
pub const IMAGE_FAILED: &'static str = "Failed to load image";

/// The words that a sensor shows while its image has not come into view.
pub const IMAGE_WAITING: &'static str = "Loading...";

/// How long an image has to be in view before it is asked for, in
/// milliseconds.
pub const IMAGE_SENSOR_DELAY: u64 = 500;

/// What a visual element is.
#[derive(Debug, PartialEq, Eq)]
pub enum Kind {
    /// The place of an image; its text is the alternative text.
    Image { url: Url, title: String },
    /// An image that was loaded.
    Picture { url: Url },
    /// The words that say that an image is being loaded.
    ImageLoading,
    /// The words that say that an image could not be loaded.
    ImageFailed,
    /// A sensor that asks for the image once it has been in view for
    /// [`IMAGE_SENSOR_DELAY`]; it shows the words that say that something is
    /// being loaded, and its key is the URL.
    ImageSensor { url: Url },
    /// A heading. A heading that is not the first block of its container has
    /// half the size of ordinary text as space above it.
    Heading { level: HeadingLevel, padded: bool },
    Paragraph,
    /// A code block; its children are its lines.
    CodeBlock,
    CodeLine,
    /// A list; its children are its entries.
    UnorderedList,
    /// A numbered list, whose numbers are as many times the size of the text
    /// wide as given.
    OrderedList { number_width: u32 },
    /// A list entry behind its marker; its children are its blocks.
    Entry(Marker),
    Quote,
    Rule,
    /// A table; its children are its head and its body.
    Table,
    /// The head of a table; its children are the header cells.
    TableHead,
    HeadCell,
    /// The body of a table; its children are the rows.
    TableBody,
    TableRow,
    Cell(Horizontal),
}

/// The value of a [`Kind`].
pub enum KindView {
    Image { url: UrlView, title: Seq<char> },
    Picture { url: UrlView },
    ImageLoading,
    ImageFailed,
    ImageSensor { url: UrlView },
    Heading { level: HeadingLevel, padded: bool },
    Paragraph,
    CodeBlock,
    CodeLine,
    UnorderedList,
    OrderedList { number_width: u32 },
    Entry(MarkerView),
    Quote,
    Rule,
    Table,
    TableHead,
    HeadCell,
    TableBody,
    TableRow,
    Cell(Horizontal),
}

impl View for Kind {
    type V = KindView;

    open spec fn view(&self) -> KindView {
        match *self {
            Kind::Image { url, title } => KindView::Image { url: url@, title: title@ },
            Kind::Picture { url } => KindView::Picture { url: url@ },
            Kind::ImageLoading => KindView::ImageLoading,
            Kind::ImageFailed => KindView::ImageFailed,
            Kind::ImageSensor { url } => KindView::ImageSensor { url: url@ },
            Kind::Heading { level, padded } => KindView::Heading { level, padded },
            Kind::Paragraph => KindView::Paragraph,
            Kind::CodeBlock => KindView::CodeBlock,
            Kind::CodeLine => KindView::CodeLine,
            Kind::UnorderedList => KindView::UnorderedList,
            Kind::OrderedList { number_width } => KindView::OrderedList { number_width },
            Kind::Entry(marker) => KindView::Entry(marker@),
            Kind::Quote => KindView::Quote,
            Kind::Rule => KindView::Rule,
            Kind::Table => KindView::Table,
            Kind::TableHead => KindView::TableHead,
            Kind::HeadCell => KindView::HeadCell,
            Kind::TableBody => KindView::TableBody,
            Kind::TableRow => KindView::TableRow,
            Kind::Cell(at) => KindView::Cell(at),
        }
    }
}

/// A visual element: what it is, the text it shows if it shows text, how many
/// list entries it is nested in, and the elements it holds, in order.
#[derive(Debug, PartialEq, Eq)]
pub struct Node {
    pub kind: Kind,
    pub text: Option<Text>,
    /// The depth in lists: the spacing of the element is the spacing of the
    /// settings taken three fifths as many times.
    pub nesting: usize,
    pub children: Vec<Node>,
}

/// The value of a [`Node`].
pub struct NodeView {
    pub kind: KindView,
    pub text: Option<Seq<SpanView>>,
    pub nesting: usize,
    pub children: Seq<NodeView>,
}

pub open spec fn text_view(text: Option<Text>) -> Option<Seq<SpanView>> {
    match text {
        Some(t) => Some(t@),
        None => None,
    }
}

/// The value of an element.
pub open spec fn node_view(node: Node) -> NodeView
    decreases node,
{
    NodeView {
        kind: node.kind@,
        text: text_view(node.text),
        nesting: node.nesting,
        children: nodes_view(node.children),
    }
}

/// The values of a sequence of elements.
pub open spec fn nodes_view(nodes: Vec<Node>) -> Seq<NodeView>
    decreases nodes,
{
    Seq::new(
        nodes.len() as nat,
        |i: int|
            if 0 <= i < nodes.len() {
                node_view(nodes[i])
            } else {
                arbitrary()
            },
    )
}

/// An element that holds nothing.
pub open spec fn leaf(kind: KindView, text: Option<Seq<SpanView>>, nesting: usize) -> NodeView {
    NodeView { kind, text, nesting, children: Seq::empty() }
}

/// An element that shows no text.
pub open spec fn group(kind: KindView, nesting: usize, children: Seq<NodeView>) -> NodeView {
    NodeView { kind, text: None, nesting, children }
}

/// The depth inside a list entry at depth `nesting`.
pub open spec fn deeper(nesting: usize) -> usize {
    if nesting < usize::MAX {
        (nesting + 1) as usize
    } else {
        nesting
    }
}

/// The marker of entry number `index`, counted from zero, of a list: the
/// number of the entry in a list that starts at `start`, else a checkbox for
/// a task and a bullet for a plain entry.
pub open spec fn marker_of(bullet: BulletView, start: Option<u64>, index: int) -> MarkerView {
    match start {
        Some(first) => MarkerView::Number(decimal((first + index) as nat).push('.')),
        None => match bullet {
            BulletView::Point { .. } => MarkerView::Bullet,
            BulletView::Task { done, .. } => MarkerView::Checkbox(done),
        },
    }
}

/// The blocks of a list entry.
pub open spec fn bullet_items(bullet: BulletView) -> Seq<ItemView> {
    match bullet {
        BulletView::Point { items } => items,
        BulletView::Task { items, .. } => items,
    }
}

/// Where cell number `index` of a row holds its content: as the column of
/// that number is aligned, and to the left where the table has no such
/// column.
pub open spec fn cell_place(columns: Seq<ColumnView>, index: int) -> Horizontal {
    if 0 <= index < columns.len() {
        horizontal_of(columns[index].alignment)
    } else {
        Horizontal::Left
    }
}

/// The element that stands for an image unless a viewer shows it otherwise.
pub open spec fn default_image(
    url: UrlView,
    title: Seq<char>,
    alt: Seq<SpanView>,
    nesting: usize,
) -> NodeView {
    leaf(KindView::Image { url, title }, Some(alt), nesting)
}

/// The element that stands for a heading that is block number `index` of its
/// container.
pub open spec fn default_heading(
    level: HeadingLevel,
    text: Seq<SpanView>,
    index: usize,
    nesting: usize,
) -> NodeView {
    leaf(KindView::Heading { level, padded: index > 0 }, Some(text), nesting)
}

/// The element that stands for a paragraph.
pub open spec fn default_paragraph(text: Seq<SpanView>, nesting: usize) -> NodeView {
    leaf(KindView::Paragraph, Some(text), nesting)
}

/// The element that stands for a code block with these lines.
pub open spec fn default_code_block(lines: Seq<Seq<SpanView>>, nesting: usize) -> NodeView {
    group(
        KindView::CodeBlock,
        nesting,
        Seq::new(lines.len(), |i: int| leaf(KindView::CodeLine, Some(lines[i]), nesting)),
    )
}

/// The element that stands for an unordered list with these entries.
pub open spec fn default_unordered_list(entries: Seq<NodeView>, nesting: usize) -> NodeView {
    group(KindView::UnorderedList, nesting, entries)
}

/// The element that stands for an ordered list with these entries, numbered
/// from `start`: its numbers are as wide as the last of them needs.
pub open spec fn default_ordered_list(start: u64, entries: Seq<NodeView>, nesting: usize) -> NodeView {
    group(
        KindView::OrderedList {
            number_width: number_width_for((start + entries.len()) as nat) as u32,
        },
        nesting,
        entries,
    )
}

/// The element that stands for a quote that holds these elements.
pub open spec fn default_quote(children: Seq<NodeView>, nesting: usize) -> NodeView {
    group(KindView::Quote, nesting, children)
}

/// The element that stands for a rule.
pub open spec fn default_rule(nesting: usize) -> NodeView {
    leaf(KindView::Rule, None, nesting)
}

/// The element that stands for a table with this head and this body.
pub open spec fn default_table(head: NodeView, body: NodeView, nesting: usize) -> NodeView {
    group(KindView::Table, nesting, seq![head, body])
}

/// How each kind of block is shown. A host that shows one kind in its own
/// way, as a rule images, shows the others as [`DefaultViewer`] does. The
/// elements inside a list, a quote or a table are made before the viewer is
/// asked for the element that holds them.
pub trait Viewer: Sized {
    spec fn image_view(
        &self,
        url: UrlView,
        title: Seq<char>,
        alt: Seq<SpanView>,
        nesting: usize,
    ) -> NodeView;

    spec fn heading_view(
        &self,
        level: HeadingLevel,
        text: Seq<SpanView>,
        index: usize,
        nesting: usize,
    ) -> NodeView;

    spec fn paragraph_view(&self, text: Seq<SpanView>, nesting: usize) -> NodeView;

    spec fn code_block_view(
        &self,
        language: Option<Seq<char>>,
        code: Seq<char>,
        lines: Seq<Seq<SpanView>>,
        nesting: usize,
    ) -> NodeView;

    spec fn unordered_list_view(&self, entries: Seq<NodeView>, nesting: usize) -> NodeView;

    spec fn ordered_list_view(&self, start: u64, entries: Seq<NodeView>, nesting: usize) -> NodeView;

    spec fn quote_view(&self, children: Seq<NodeView>, nesting: usize) -> NodeView;

    spec fn rule_view(&self, nesting: usize) -> NodeView;

    spec fn table_view(&self, head: NodeView, body: NodeView, nesting: usize) -> NodeView;

    /// Shows an image.
    fn image(&self, url: &Url, title: &str, alt: &Text, nesting: usize) -> (node: Node)
        ensures
            node_view(node) == self.image_view(url@, title@, alt@, nesting),
    ;

    /// Shows a heading that is block number `index` of its container.
    fn heading(&self, level: HeadingLevel, text: &Text, index: usize, nesting: usize) -> (node:
        Node)
        ensures
            node_view(node) == self.heading_view(level, text@, index, nesting),
    ;

    /// Shows a paragraph.
    fn paragraph(&self, text: &Text, nesting: usize) -> (node: Node)
        ensures
            node_view(node) == self.paragraph_view(text@, nesting),
    ;

    /// Shows a code block.
    fn code_block(&self, language: &Option<String>, code: &str, lines: &Vec<Text>, nesting: usize) -> (node:
        Node)
        ensures
            node_view(node) == self.code_block_view(
                language_view(*language),
                code@,
                texts_view(lines@),
                nesting,
            ),
    ;

    /// Shows an unordered list with these entries.
    fn unordered_list(&self, entries: Vec<Node>, nesting: usize) -> (node: Node)
        ensures
            node_view(node) == self.unordered_list_view(nodes_view(entries), nesting),
    ;

    /// Shows an ordered list with these entries, numbered from `start`.
    fn ordered_list(&self, start: u64, entries: Vec<Node>, nesting: usize) -> (node: Node)
        ensures
            node_view(node) == self.ordered_list_view(start, nodes_view(entries), nesting),
    ;

    /// Shows a quote that holds these elements.
    fn quote(&self, children: Vec<Node>, nesting: usize) -> (node: Node)
        ensures
            node_view(node) == self.quote_view(nodes_view(children), nesting),
    ;

    /// Shows a rule.
    fn rule(&self, nesting: usize) -> (node: Node)
        ensures
            node_view(node) == self.rule_view(nesting),
    ;

    /// Shows a table with this head and this body.
    fn table(&self, head: Node, body: Node, nesting: usize) -> (node: Node)
        ensures
            node_view(node) == self.table_view(node_view(head), node_view(body), nesting),
    ;
}

/// The viewer that shows every kind of block in the default way.
#[derive(Clone, Copy, Debug)]
pub struct DefaultViewer;

impl Viewer for DefaultViewer {
    open spec fn image_view(
        &self,
        url: UrlView,
        title: Seq<char>,
        alt: Seq<SpanView>,
        nesting: usize,
    ) -> NodeView {
        default_image(url, title, alt, nesting)
    }

    open spec fn heading_view(
        &self,
        level: HeadingLevel,
        text: Seq<SpanView>,
        index: usize,
        nesting: usize,
    ) -> NodeView {
        default_heading(level, text, index, nesting)
    }

    open spec fn paragraph_view(&self, text: Seq<SpanView>, nesting: usize) -> NodeView {
        default_paragraph(text, nesting)
    }

    open spec fn code_block_view(
        &self,
        language: Option<Seq<char>>,
        code: Seq<char>,
        lines: Seq<Seq<SpanView>>,
        nesting: usize,
    ) -> NodeView {
        default_code_block(lines, nesting)
    }

    open spec fn unordered_list_view(&self, entries: Seq<NodeView>, nesting: usize) -> NodeView {
        default_unordered_list(entries, nesting)
    }

    open spec fn ordered_list_view(&self, start: u64, entries: Seq<NodeView>, nesting: usize) -> NodeView {
        default_ordered_list(start, entries, nesting)
    }

    open spec fn quote_view(&self, children: Seq<NodeView>, nesting: usize) -> NodeView {
        default_quote(children, nesting)
    }

    open spec fn rule_view(&self, nesting: usize) -> NodeView {
        default_rule(nesting)
    }

    open spec fn table_view(&self, head: NodeView, body: NodeView, nesting: usize) -> NodeView {
        default_table(head, body, nesting)
    }

    fn image(&self, url: &Url, title: &str, alt: &Text, nesting: usize) -> (node: Node) {
        image(url, title, alt, nesting)
    }

    fn heading(&self, level: HeadingLevel, text: &Text, index: usize, nesting: usize) -> (node:
        Node) {
        heading(level, text, index, nesting)
    }

    fn paragraph(&self, text: &Text, nesting: usize) -> (node: Node) {
        paragraph(text, nesting)
    }

    fn code_block(&self, language: &Option<String>, code: &str, lines: &Vec<Text>, nesting: usize) -> (node:
        Node) {
        code_block(lines, nesting)
    }

    fn unordered_list(&self, entries: Vec<Node>, nesting: usize) -> (node: Node) {
        unordered_list(entries, nesting)
    }

    fn ordered_list(&self, start: u64, entries: Vec<Node>, nesting: usize) -> (node: Node) {
        ordered_list(start, entries, nesting)
    }

    fn quote(&self, children: Vec<Node>, nesting: usize) -> (node: Node) {
        quote(children, nesting)
    }

    fn rule(&self, nesting: usize) -> (node: Node) {
        rule(nesting)
    }

    fn table(&self, head: Node, body: Node, nesting: usize) -> (node: Node) {
        table(head, body, nesting)
    }
}

/// The entries of a list as elements, each behind its marker; the blocks of
/// an entry stand one deeper in lists than the list.
pub open spec fn entries_with<V: Viewer>(
    viewer: V,
    bullets: Seq<BulletView>,
    start: Option<u64>,
    nesting: usize,
) -> Seq<NodeView>
    decreases bullets, 0nat,
{
    Seq::new(
        bullets.len(),
        |i: int|
            if 0 <= i < bullets.len() {
                group(
                    KindView::Entry(marker_of(bullets[i], start, i)),
                    nesting,
                    nodes_with(viewer, bullet_items(bullets[i]), deeper(nesting)),
                )
            } else {
                arbitrary()
            },
    )
}

/// The head of a table: a cell for each column, in order.
pub open spec fn head_with<V: Viewer>(viewer: V, columns: Seq<ColumnView>, nesting: usize) -> NodeView
    decreases columns, 0nat,
{
    group(
        KindView::TableHead,
        nesting,
        Seq::new(
            columns.len(),
            |i: int|
                if 0 <= i < columns.len() {
                    group(
                        KindView::HeadCell,
                        nesting,
                        nodes_with(viewer, columns[i].header, nesting),
                    )
                } else {
                    arbitrary()
                },
        ),
    )
}

/// A row of a table: its cells in order, each placed as its column is
/// aligned.
pub open spec fn row_with<V: Viewer>(
    viewer: V,
    columns: Seq<ColumnView>,
    row: Seq<Seq<ItemView>>,
    nesting: usize,
) -> NodeView
    decreases row, 0nat,
{
    group(
        KindView::TableRow,
        nesting,
        Seq::new(
            row.len(),
            |i: int|
                if 0 <= i < row.len() {
                    group(
                        KindView::Cell(cell_place(columns, i)),
                        nesting,
                        nodes_with(viewer, row[i], nesting),
                    )
                } else {
                    arbitrary()
                },
        ),
    )
}

/// The body of a table: its rows in order.
pub open spec fn body_with<V: Viewer>(
    viewer: V,
    columns: Seq<ColumnView>,
    rows: Seq<Seq<Seq<ItemView>>>,
    nesting: usize,
) -> NodeView
    decreases rows, 1nat,
{
    group(
        KindView::TableBody,
        nesting,
        Seq::new(
            rows.len(),
            |r: int|
                if 0 <= r < rows.len() {
                    row_with(viewer, columns, rows[r], nesting)
                } else {
                    arbitrary()
                },
        ),
    )
}

/// What stands at the place of the image at `url`, given the images that the
/// document tracks: the image once it is loaded, words while it is being
/// loaded or after it failed, and a sensor while it is not tracked.
pub open spec fn image_placeholder<H>(
    table: Map<Seq<char>, ImageState<H>>,
    url: UrlView,
    nesting: usize,
) -> NodeView {
    if table.contains_key(url.href) {
        match table[url.href] {
            ImageState::Ready(_) => leaf(KindView::Picture { url }, None, nesting),
            ImageState::Loading => leaf(KindView::ImageLoading, None, nesting),
            ImageState::Failed => leaf(KindView::ImageFailed, None, nesting),
        }
    } else {
        leaf(KindView::ImageSensor { url }, None, nesting)
    }
}

/// The viewer of a host that loads images when they come into view: it shows
/// an image as the state of its loading says, and every other kind of block
/// in the default way.
pub struct ImageViewer<'a, H> {
    pub images: &'a ImageTable<H>,
}

impl<'a, H> Viewer for ImageViewer<'a, H> {
    open spec fn image_view(
        &self,
        url: UrlView,
        title: Seq<char>,
        alt: Seq<SpanView>,
        nesting: usize,
    ) -> NodeView {
        image_placeholder(self.images@, url, nesting)
    }

    open spec fn heading_view(
        &self,
        level: HeadingLevel,
        text: Seq<SpanView>,
        index: usize,
        nesting: usize,
    ) -> NodeView {
        default_heading(level, text, index, nesting)
    }

    open spec fn paragraph_view(&self, text: Seq<SpanView>, nesting: usize) -> NodeView {
        default_paragraph(text, nesting)
    }

    open spec fn code_block_view(
        &self,
        language: Option<Seq<char>>,
        code: Seq<char>,
        lines: Seq<Seq<SpanView>>,
        nesting: usize,
    ) -> NodeView {
        default_code_block(lines, nesting)
    }

    open spec fn unordered_list_view(&self, entries: Seq<NodeView>, nesting: usize) -> NodeView {
        default_unordered_list(entries, nesting)
    }

    open spec fn ordered_list_view(&self, start: u64, entries: Seq<NodeView>, nesting: usize) -> NodeView {
        default_ordered_list(start, entries, nesting)
    }

    open spec fn quote_view(&self, children: Seq<NodeView>, nesting: usize) -> NodeView {
        default_quote(children, nesting)
    }

    open spec fn rule_view(&self, nesting: usize) -> NodeView {
        default_rule(nesting)
    }

    open spec fn table_view(&self, head: NodeView, body: NodeView, nesting: usize) -> NodeView {
        default_table(head, body, nesting)
    }

    fn image(&self, url: &Url, title: &str, alt: &Text, nesting: usize) -> (node: Node) {
        let kind = match self.images.placeholder(url.href.as_str()) {
            Placeholder::Picture(_) => Kind::Picture { url: url.clone() },
            Placeholder::Loading => Kind::ImageLoading,
            Placeholder::Failed => Kind::ImageFailed,
            Placeholder::Sensor => Kind::ImageSensor { url: url.clone() },
        };
        make_leaf(kind, None, nesting)
    }

    fn heading(&self, level: HeadingLevel, text: &Text, index: usize, nesting: usize) -> (node:
        Node) {
        heading(level, text, index, nesting)
    }

    fn paragraph(&self, text: &Text, nesting: usize) -> (node: Node) {
        paragraph(text, nesting)
    }

    fn code_block(&self, language: &Option<String>, code: &str, lines: &Vec<Text>, nesting: usize) -> (node:
        Node) {
        code_block(lines, nesting)
    }

    fn unordered_list(&self, entries: Vec<Node>, nesting: usize) -> (node: Node) {
        unordered_list(entries, nesting)
    }

    fn ordered_list(&self, start: u64, entries: Vec<Node>, nesting: usize) -> (node: Node) {
        ordered_list(start, entries, nesting)
    }

    fn quote(&self, children: Vec<Node>, nesting: usize) -> (node: Node) {
        quote(children, nesting)
    }

    fn rule(&self, nesting: usize) -> (node: Node) {
        rule(nesting)
    }

    fn table(&self, head: Node, body: Node, nesting: usize) -> (node: Node) {
        table(head, body, nesting)
    }
}

/// The element that `viewer` shows for `item`, which is block number `index`
/// of its container and stands at depth `nesting` in lists. The blocks of a
/// list entry stand one deeper; the blocks of a quote and of a table cell
/// stand as deep as the quote and the table.
pub open spec fn node_with<V: Viewer>(viewer: V, item: ItemView, index: usize, nesting: usize) -> NodeView
    decreases item, 2nat,
{
    match item {
        ItemView::Image { url, title, alt } => viewer.image_view(url, title, alt, nesting),
        ItemView::Heading(level, text) => viewer.heading_view(level, text, index, nesting),
        ItemView::Paragraph(text) => viewer.paragraph_view(text, nesting),
        ItemView::CodeBlock { language, code, lines } => viewer.code_block_view(
            language,
            code,
            lines,
            nesting,
        ),
        ItemView::List { start, bullets } => match start {
            Some(first) => viewer.ordered_list_view(
                first,
                entries_with(viewer, bullets, start, nesting),
                nesting,
            ),
            None => viewer.unordered_list_view(
                entries_with(viewer, bullets, start, nesting),
                nesting,
            ),
        },
        ItemView::Quote(items) => viewer.quote_view(nodes_with(viewer, items, nesting), nesting),
        ItemView::Rule => viewer.rule_view(nesting),
        ItemView::Table { columns, rows } => viewer.table_view(
            head_with(viewer, columns, nesting),
            body_with(viewer, columns, rows, nesting),
            nesting,
        ),
    }
}

/// The elements that `viewer` shows for `items`, in order.
pub open spec fn nodes_with<V: Viewer>(viewer: V, items: Seq<ItemView>, nesting: usize) -> Seq<
    NodeView,
>
    decreases items, 0nat,
{
    Seq::new(
        items.len(),
        |i: int|
            if 0 <= i < items.len() {
                node_with(viewer, items[i], i as usize, nesting)
            } else {
                arbitrary()
            },
    )
}

/// The element that stands for `item` by default.
pub open spec fn node_of(item: ItemView, index: usize, nesting: usize) -> NodeView {
    node_with(DefaultViewer, item, index, nesting)
}

/// The elements that stand for `items` by default, in order.
pub open spec fn nodes_of(items: Seq<ItemView>, nesting: usize) -> Seq<NodeView> {
    nodes_with(DefaultViewer, items, nesting)
}

fn push_node(nodes: &mut Vec<Node>, node: Node)
    ensures
        nodes_view(*final(nodes)) == nodes_view(*old(nodes)).push(node_view(node)),
{
    nodes.push(node);
}

/// An element that holds nothing.
fn make_leaf(kind: Kind, text: Option<Text>, nesting: usize) -> (node: Node)
    ensures
        node_view(node) == leaf(kind@, text_view(text), nesting),
{
    let node = Node { kind, text, nesting, children: Vec::new() };
    assert(nodes_view(node.children) =~= Seq::empty());
    node
}

/// An element that shows no text.
fn make_group(kind: Kind, nesting: usize, children: Vec<Node>) -> (node: Node)
    ensures
        node_view(node) == group(kind@, nesting, nodes_view(children)),
{
    Node { kind, text: None, nesting, children }
}

/// The depth inside a list entry at depth `nesting`.
fn go_deeper(nesting: usize) -> (r: usize)
    ensures
        r == deeper(nesting),
{
    if nesting < usize::MAX {
        nesting + 1
    } else {
        nesting
    }
}

/// Displays an image using the default look: the place of the image, with its
/// alternative text.
pub fn image(url: &Url, title: &str, alt: &Text, nesting: usize) -> (node: Node)
    ensures
        node_view(node) == default_image(url@, title@, alt@, nesting),
{
    make_leaf(Kind::Image { url: url.clone(), title: title.to_owned() }, Some(alt.clone()), nesting)
}

/// Displays a heading using the default look.
pub fn heading(level: HeadingLevel, text: &Text, index: usize, nesting: usize) -> (node: Node)
    ensures
        node_view(node) == default_heading(level, text@, index, nesting),
{
    make_leaf(Kind::Heading { level, padded: index > 0 }, Some(text.clone()), nesting)
}

/// Displays a paragraph using the default look.
pub fn paragraph(text: &Text, nesting: usize) -> (node: Node)
    ensures
        node_view(node) == default_paragraph(text@, nesting),
{
    make_leaf(Kind::Paragraph, Some(text.clone()), nesting)
}

/// Displays a rule using the default look.
pub fn rule(nesting: usize) -> (node: Node)
    ensures
        node_view(node) == default_rule(nesting),
{
    make_leaf(Kind::Rule, None, nesting)
}

/// Displays a code block using the default look: its lines, one below the
/// other.
pub fn code_block(lines: &Vec<Text>, nesting: usize) -> (node: Node)
    ensures
        node_view(node) == default_code_block(texts_view(lines@), nesting),
{
    let ghost wanted = default_code_block(texts_view(lines@), nesting).children;
    let mut children: Vec<Node> = Vec::new();
    let mut i: usize = 0;
    while i < lines.len()
        invariant
            i <= lines.len(),
            wanted == default_code_block(texts_view(lines@), nesting).children,
            nodes_view(children) == wanted.take(i as int),
        decreases lines.len() - i,
    {
        push_node(&mut children, make_leaf(Kind::CodeLine, Some(lines[i].clone()), nesting));
        i += 1;
    }
    assert(wanted.take(lines@.len() as int) =~= wanted);
    make_group(Kind::CodeBlock, nesting, children)
}

/// Displays an unordered list using the default look.
pub fn unordered_list(entries: Vec<Node>, nesting: usize) -> (node: Node)
    ensures
        node_view(node) == default_unordered_list(nodes_view(entries), nesting),
{
    make_group(Kind::UnorderedList, nesting, entries)
}

/// Displays an ordered list using the default look.
pub fn ordered_list(start: u64, entries: Vec<Node>, nesting: usize) -> (node: Node)
    ensures
        node_view(node) == default_ordered_list(start, nodes_view(entries), nesting),
{
    let kind = Kind::OrderedList {
        number_width: number_width(start as u128 + entries.len() as u128),
    };
    make_group(kind, nesting, entries)
}

/// Displays a quote using the default look.
pub fn quote(children: Vec<Node>, nesting: usize) -> (node: Node)
    ensures
        node_view(node) == default_quote(nodes_view(children), nesting),
{
    make_group(Kind::Quote, nesting, children)
}

/// Displays a table using the default look: its head above its body.
pub fn table(head: Node, body: Node, nesting: usize) -> (node: Node)
    ensures
        node_view(node) == default_table(node_view(head), node_view(body), nesting),
{
    let mut parts: Vec<Node> = Vec::new();
    push_node(&mut parts, head);
    push_node(&mut parts, body);
    assert(nodes_view(parts) =~= seq![node_view(head), node_view(body)]);
    make_group(Kind::Table, nesting, parts)
}

/// The marker of entry number `index` of a list that starts at `start`.
fn marker(bullet: &Bullet, start: Option<u64>, index: usize) -> (r: Marker)
    ensures
        r@ == marker_of(bullet_view(*bullet), start, index as int),
{
    match start {
        Some(first) => {
            let mut digits = to_decimal(first as u128 + index as u128);
            digits.push('.');
            Marker::Number(to_string(&digits))
        },
        None => match bullet {
            Bullet::Point { .. } => Marker::Bullet,
            Bullet::Task { done, .. } => Marker::Checkbox(*done),
        },
    }
}

/// Displays a column of blocks with `viewer`, at depth `nesting` in lists.
pub fn items<V: Viewer>(viewer: &V, contents: &Vec<Item>, nesting: usize) -> (nodes: Vec<Node>)
    ensures
        nodes_view(nodes) == nodes_with(*viewer, items_view(*contents), nesting),
    decreases contents, 0nat,
{
    let ghost wanted = nodes_with(*viewer, items_view(*contents), nesting);
    let mut nodes: Vec<Node> = Vec::new();
    let mut i: usize = 0;
    while i < contents.len()
        invariant
            i <= contents.len(),
            wanted == nodes_with(*viewer, items_view(*contents), nesting),
            nodes_view(nodes) == wanted.take(i as int),
        decreases contents.len() - i,
    {
        push_node(&mut nodes, item(viewer, &contents[i], i, nesting));
        i += 1;
    }
    nodes
}

/// The entries of a list, each behind its marker.
fn entries<V: Viewer>(viewer: &V, start: Option<u64>, bullets: &Vec<Bullet>, nesting: usize) -> (nodes:
    Vec<Node>)
    ensures
        nodes_view(nodes) == entries_with(*viewer, bullets_view(*bullets), start, nesting),
    decreases bullets, 1nat,
{
    let ghost wanted = entries_with(*viewer, bullets_view(*bullets), start, nesting);
    let mut nodes: Vec<Node> = Vec::new();
    let mut i: usize = 0;
    while i < bullets.len()
        invariant
            i <= bullets.len(),
            wanted == entries_with(*viewer, bullets_view(*bullets), start, nesting),
            nodes_view(nodes) == wanted.take(i as int),
        decreases bullets.len() - i,
    {
        let body = match &bullets[i] {
            Bullet::Point { items: contents } => items(viewer, contents, go_deeper(nesting)),
            Bullet::Task { items: contents, .. } => items(viewer, contents, go_deeper(nesting)),
        };
        let entry = make_group(Kind::Entry(marker(&bullets[i], start, i)), nesting, body);
        push_node(&mut nodes, entry);
        i += 1;
    }
    nodes
}

/// The head of a table with these columns.
fn table_head<V: Viewer>(viewer: &V, columns: &Vec<Column>, nesting: usize) -> (node: Node)
    ensures
        node_view(node) == head_with(*viewer, columns_view(*columns), nesting),
    decreases columns, 1nat,
{
    let ghost wanted = head_with(*viewer, columns_view(*columns), nesting).children;
    let mut cells: Vec<Node> = Vec::new();
    let mut i: usize = 0;
    while i < columns.len()
        invariant
            i <= columns.len(),
            wanted == head_with(*viewer, columns_view(*columns), nesting).children,
            nodes_view(cells) == wanted.take(i as int),
        decreases columns.len() - i,
    {
        let cell = make_group(Kind::HeadCell, nesting, items(viewer, &columns[i].header, nesting));
        push_node(&mut cells, cell);
        i += 1;
    }
    assert(wanted.take(columns@.len() as int) =~= wanted);
    make_group(Kind::TableHead, nesting, cells)
}

/// A row of a table with these columns.
fn table_row<V: Viewer>(viewer: &V, columns: &Vec<Column>, row: &Row, nesting: usize) -> (node: Node)
    ensures
        node_view(node) == row_with(
            *viewer,
            columns_view(*columns),
            cells_view(row.cells),
            nesting,
        ),
    decreases row, 1nat,
{
    let ghost all = columns_view(*columns);
    let ghost wanted = row_with(*viewer, all, cells_view(row.cells), nesting).children;
    let mut cells: Vec<Node> = Vec::new();
    let mut i: usize = 0;
    while i < row.cells.len()
        invariant
            i <= row.cells.len(),
            all == columns_view(*columns),
            wanted == row_with(*viewer, all, cells_view(row.cells), nesting).children,
            nodes_view(cells) == wanted.take(i as int),
        decreases row.cells.len() - i,
    {
        let place = if i < columns.len() {
            horizontal(columns[i].alignment)
        } else {
            Horizontal::Left
        };
        let cell = make_group(Kind::Cell(place), nesting, items(viewer, &row.cells[i], nesting));
        push_node(&mut cells, cell);
        i += 1;
    }
    assert(wanted.take(row.cells@.len() as int) =~= wanted);
    make_group(Kind::TableRow, nesting, cells)
}

/// The body of a table with these columns and rows.
fn table_body<V: Viewer>(viewer: &V, columns: &Vec<Column>, rows: &Vec<Row>, nesting: usize) -> (node:
    Node)
    ensures
        node_view(node) == body_with(
            *viewer,
            columns_view(*columns),
            rows_view(*rows),
            nesting,
        ),
    decreases rows, 2nat,
{
    let ghost wanted = body_with(*viewer, columns_view(*columns), rows_view(*rows), nesting).children;
    let mut body: Vec<Node> = Vec::new();
    let mut r: usize = 0;
    while r < rows.len()
        invariant
            r <= rows.len(),
            wanted == body_with(
                *viewer,
                columns_view(*columns),
                rows_view(*rows),
                nesting,
            ).children,
            nodes_view(body) == wanted.take(r as int),
        decreases rows.len() - r,
    {
        let row = table_row(viewer, columns, &rows[r], nesting);
        push_node(&mut body, row);
        r += 1;
    }
    assert(wanted.take(rows@.len() as int) =~= wanted);
    make_group(Kind::TableBody, nesting, body)
}

/// Displays a block with `viewer`: the block is block number `index` of its
/// container and stands at depth `nesting` in lists.
pub fn item<V: Viewer>(viewer: &V, block: &Item, index: usize, nesting: usize) -> (node: Node)
    ensures
        node_view(node) == node_with(*viewer, item_view(*block), index, nesting),
    decreases block, 3nat,
{
    match block {
        Item::Image { url, title, alt } => viewer.image(url, title.as_str(), alt, nesting),
        Item::Heading(level, text) => viewer.heading(*level, text, index, nesting),
        Item::Paragraph(text) => viewer.paragraph(text, nesting),
        Item::CodeBlock { language, code, lines } => viewer.code_block(
            language,
            code.as_str(),
            lines,
            nesting,
        ),
        Item::List { start: None, bullets } => {
            let all = entries(viewer, None, bullets, nesting);
            viewer.unordered_list(all, nesting)
        },
        Item::List { start: Some(first), bullets } => {
            let all = entries(viewer, Some(*first), bullets, nesting);
            viewer.ordered_list(*first, all, nesting)
        },
        Item::Quote(contents) => {
            let children = items(viewer, contents, nesting);
            viewer.quote(children, nesting)
        },
        Item::Rule => viewer.rule(nesting),
        Item::Table { columns, rows } => {
            let head = table_head(viewer, columns, nesting);
            let body = table_body(viewer, columns, rows, nesting);
            viewer.table(head, body, nesting)
        },
    }
}

/// Displays the blocks of a document with `viewer`, in order.
pub fn view_with<V: Viewer>(blocks: &Vec<Item>, viewer: &V) -> (nodes: Vec<Node>)
    ensures
        nodes_view(nodes) == nodes_with(*viewer, items_view(*blocks), 0),
{
    items(viewer, blocks, 0)
}

/// Displays the blocks of a document in the default way, in order.
pub fn view(blocks: &Vec<Item>) -> (nodes: Vec<Node>)
    ensures
        nodes_view(nodes) == nodes_of(items_view(*blocks), 0),
{
    view_with(blocks, &DefaultViewer)
}

/// Two blocks that show the same image show it alike, whatever the state of
/// its loading: what stands at the place of an image depends on its URL and on
/// the images that are tracked alone.
pub proof fn lemma_same_image_same_placeholder<H>(
    viewer: ImageViewer<'_, H>,
    url: UrlView,
    first_title: Seq<char>,
    first_alt: Seq<SpanView>,
    second_title: Seq<char>,
    second_alt: Seq<SpanView>,
    nesting: usize,
)
    ensures
        viewer.image_view(url, first_title, first_alt, nesting) == viewer.image_view(
            url,
            second_title,
            second_alt,
            nesting,
        ),
{
}

/// Whatever the viewer, there is one element for each block, and the
/// elements stand in the order of the blocks.
pub proof fn lemma_view_keeps_order<V: Viewer>(viewer: V, items: Seq<ItemView>, nesting: usize)
    ensures
        nodes_with(viewer, items, nesting).len() == items.len(),
        forall|i: int|
            0 <= i < items.len() ==> #[trigger] nodes_with(viewer, items, nesting)[i] == node_with(
                viewer,
                items[i],
                i as usize,
                nesting,
            ),
{
}

} // verus!
