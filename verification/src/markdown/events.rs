//! The events that the Markdown scanner reports, as plain values.

use pulldown_cmark as cmark;
use vstd::prelude::*;
use crate::markdown::model::{Alignment, HeadingLevel};
use crate::markdown::references::{definitions_map, Reference, References};

verus! {

/// What opens, of the elements that the block builder acts on.
#[derive(Debug, PartialEq, Eq)]
pub enum Tag {
    Strong,
    Emphasis,
    Strikethrough,
    Link { dest_url: String },
    Image { dest_url: String, title: String },
    /// A list, with the number of its first entry if it is ordered.
    List(Option<u64>),
    Item,
    BlockQuote,
    /// A code block with its info string, which is empty for an indented block.
    CodeBlock(String),
    MetadataBlock,
    /// A table with the alignment of each column.
    Table(Vec<Alignment>),
    TableHead,
    TableRow,
}

/// What closes, of the elements that the block builder acts on.
#[derive(Clone, Copy, Debug, PartialEq, Eq)]
pub enum TagEnd {
    Heading(HeadingLevel),
    Strong,
    Emphasis,
    Strikethrough,
    Link,
    Paragraph,
    Item,
    List,
    BlockQuote,
    Image,
    CodeBlock,
    MetadataBlock,
    Table,
    TableHead,
    TableCell,
}

/// One event of the scanner, as far as the block builder tells events apart.
#[derive(Debug, PartialEq, Eq)]
pub enum Signal {
    Start(Tag),
    End(TagEnd),
    Text(String),
    Code(String),
    SoftBreak,
    HardBreak,
    Rule,
    TaskListMarker(bool),
    /// Any other event.
    Other,
}

/// An event with the byte range of the source it covers and the labels that
/// the scanner looked up among the known definitions while it read that far.
#[derive(Debug, PartialEq, Eq)]
pub struct Sourced {
    pub signal: Signal,
    pub start: usize,
    pub end: usize,
    pub lookups: Vec<String>,
}

/// The value of a [`Tag`].
pub enum TagView {
    Strong,
    Emphasis,
    Strikethrough,
    Link { dest_url: Seq<char> },
    Image { dest_url: Seq<char>, title: Seq<char> },
    List(Option<u64>),
    Item,
    BlockQuote,
    CodeBlock(Seq<char>),
    MetadataBlock,
    Table(Seq<Alignment>),
    TableHead,
    TableRow,
}

/// The value of a [`Signal`].
pub enum SignalView {
    Start(TagView),
    End(TagEnd),
    Text(Seq<char>),
    Code(Seq<char>),
    SoftBreak,
    HardBreak,
    Rule,
    TaskListMarker(bool),
    Other,
}

/// The value of a [`Sourced`] event.
pub struct SourcedView {
    pub signal: SignalView,
    pub start: usize,
    pub end: usize,
    pub lookups: Seq<Seq<char>>,
}

impl View for Tag {
    type V = TagView;

    open spec fn view(&self) -> TagView {
        match *self {
            Tag::Strong => TagView::Strong,
            Tag::Emphasis => TagView::Emphasis,
            Tag::Strikethrough => TagView::Strikethrough,
            Tag::Link { dest_url } => TagView::Link { dest_url: dest_url@ },
            Tag::Image { dest_url, title } => TagView::Image { dest_url: dest_url@, title: title@ },
            Tag::List(first) => TagView::List(first),
            Tag::Item => TagView::Item,
            Tag::BlockQuote => TagView::BlockQuote,
            Tag::CodeBlock(info) => TagView::CodeBlock(info@),
            Tag::MetadataBlock => TagView::MetadataBlock,
            Tag::Table(alignment) => TagView::Table(alignment@),
            Tag::TableHead => TagView::TableHead,
            Tag::TableRow => TagView::TableRow,
        }
    }
}

impl View for Signal {
    type V = SignalView;

    open spec fn view(&self) -> SignalView {
        match *self {
            Signal::Start(tag) => SignalView::Start(tag@),
            Signal::End(tag) => SignalView::End(tag),
            Signal::Text(text) => SignalView::Text(text@),
            Signal::Code(text) => SignalView::Code(text@),
            Signal::SoftBreak => SignalView::SoftBreak,
            Signal::HardBreak => SignalView::HardBreak,
            Signal::Rule => SignalView::Rule,
            Signal::TaskListMarker(done) => SignalView::TaskListMarker(done),
            Signal::Other => SignalView::Other,
        }
    }
}

/// The values of a sequence of strings.
pub open spec fn strings_view(strings: Seq<String>) -> Seq<Seq<char>> {
    Seq::new(strings.len(), |i: int| strings[i]@)
}

impl View for Sourced {
    type V = SourcedView;

    open spec fn view(&self) -> SourcedView {
        SourcedView {
            signal: self.signal@,
            start: self.start,
            end: self.end,
            lookups: strings_view(self.lookups@),
        }
    }
}

/// The values of a sequence of events.
pub open spec fn signals_view(events: Seq<Sourced>) -> Seq<SourcedView> {
    Seq::new(events.len(), |i: int| events[i]@)
}

#[verifier::external_type_specification]
#[verifier::external_body]
pub struct ExScannerEvent<'a>(pulldown_cmark::Event<'a>);

/// Reads a text, a code span, a break, a rule or a task marker off an event
/// of `pulldown_cmark`; any other event gives `None`.
#[verifier::external_body]
fn leaf_signal(event: &cmark::Event<'_>) -> (signal: Option<Signal>) {
    match event {
        cmark::Event::Text(text) => Some(Signal::Text(text.to_string())),
        cmark::Event::Code(text) => Some(Signal::Code(text.to_string())),
        cmark::Event::SoftBreak => Some(Signal::SoftBreak),
        cmark::Event::HardBreak => Some(Signal::HardBreak),
        cmark::Event::Rule => Some(Signal::Rule),
        cmark::Event::TaskListMarker(done) => Some(Signal::TaskListMarker(*done)),
        _ => None,
    }
}

/// Reads the start of strong, emphasised or struck text, of a link or of an
/// image off an event of `pulldown_cmark`; any other event gives `None`.
#[verifier::external_body]
fn inline_start(event: &cmark::Event<'_>) -> (tag: Option<Tag>) {
    let cmark::Event::Start(tag) = event else {
        return None;
    };
    match tag {
        cmark::Tag::Strong => Some(Tag::Strong),
        cmark::Tag::Emphasis => Some(Tag::Emphasis),
        cmark::Tag::Strikethrough => Some(Tag::Strikethrough),
        cmark::Tag::Link { dest_url, .. } => Some(Tag::Link { dest_url: dest_url.to_string() }),
        cmark::Tag::Image { dest_url, title, .. } => {
            Some(Tag::Image { dest_url: dest_url.to_string(), title: title.to_string() })
        },
        _ => None,
    }
}

/// Reads the start of a list, a list entry, a quote, a metadata block or of
/// the head or a row of a table off an event of `pulldown_cmark`; any other
/// event gives `None`.
#[verifier::external_body]
fn block_start(event: &cmark::Event<'_>) -> (tag: Option<Tag>) {
    let cmark::Event::Start(tag) = event else {
        return None;
    };
    match tag {
        cmark::Tag::List(first) => Some(Tag::List(*first)),
        cmark::Tag::Item => Some(Tag::Item),
        cmark::Tag::BlockQuote(_) => Some(Tag::BlockQuote),
        cmark::Tag::MetadataBlock(_) => Some(Tag::MetadataBlock),
        cmark::Tag::TableHead => Some(Tag::TableHead),
        cmark::Tag::TableRow => Some(Tag::TableRow),
        _ => None,
    }
}

/// Reads the start of a code block off an event of `pulldown_cmark`; any
/// other event gives `None`. A fenced block comes with its info string, an
/// indented one with the empty string.
#[verifier::external_body]
fn code_start(event: &cmark::Event<'_>) -> (tag: Option<Tag>) {
    let cmark::Event::Start(cmark::Tag::CodeBlock(kind)) = event else {
        return None;
    };
    match kind {
        cmark::CodeBlockKind::Fenced(info) => Some(Tag::CodeBlock(info.to_string())),
        cmark::CodeBlockKind::Indented => Some(Tag::CodeBlock(String::new())),
    }
}

/// Reads the start of a table, with the alignment of each column, off an
/// event of `pulldown_cmark`; any other event gives `None`.
#[verifier::external_body]
fn table_start(event: &cmark::Event<'_>) -> (tag: Option<Tag>) {
    let cmark::Event::Start(cmark::Tag::Table(alignments)) = event else {
        return None;
    };
    let own = alignments.iter().map(|alignment| match alignment {
        cmark::Alignment::None => Alignment::Unset,
        cmark::Alignment::Left => Alignment::Left,
        cmark::Alignment::Center => Alignment::Center,
        cmark::Alignment::Right => Alignment::Right,
    });
    Some(Tag::Table(own.collect()))
}

/// Reads the end of strong, emphasised or struck text, of a link, an image, a
/// paragraph or a list entry off an event of `pulldown_cmark`; any other
/// event gives `None`.
#[verifier::external_body]
fn inline_end(event: &cmark::Event<'_>) -> (tag: Option<TagEnd>) {
    let cmark::Event::End(tag) = event else {
        return None;
    };
    match tag {
        cmark::TagEnd::Strong => Some(TagEnd::Strong),
        cmark::TagEnd::Emphasis => Some(TagEnd::Emphasis),
        cmark::TagEnd::Strikethrough => Some(TagEnd::Strikethrough),
        cmark::TagEnd::Link => Some(TagEnd::Link),
        cmark::TagEnd::Image => Some(TagEnd::Image),
        cmark::TagEnd::Paragraph => Some(TagEnd::Paragraph),
        cmark::TagEnd::Item => Some(TagEnd::Item),
        _ => None,
    }
}

/// Reads the end of a list, a quote, a code block, a metadata block, a table
/// or of the head or a cell of a table off an event of `pulldown_cmark`; any
/// other event gives `None`.
#[verifier::external_body]
fn block_end(event: &cmark::Event<'_>) -> (tag: Option<TagEnd>) {
    let cmark::Event::End(tag) = event else {
        return None;
    };
    match tag {
        cmark::TagEnd::List(_) => Some(TagEnd::List),
        cmark::TagEnd::BlockQuote(_) => Some(TagEnd::BlockQuote),
        cmark::TagEnd::CodeBlock => Some(TagEnd::CodeBlock),
        cmark::TagEnd::MetadataBlock(_) => Some(TagEnd::MetadataBlock),
        cmark::TagEnd::Table => Some(TagEnd::Table),
        cmark::TagEnd::TableHead => Some(TagEnd::TableHead),
        cmark::TagEnd::TableCell => Some(TagEnd::TableCell),
        _ => None,
    }
}

/// Reads the end of a heading, with its level, off an event of
/// `pulldown_cmark`; any other event gives `None`.
#[verifier::external_body]
fn heading_end(event: &cmark::Event<'_>) -> (level: Option<HeadingLevel>) {
    let cmark::Event::End(cmark::TagEnd::Heading(level)) = event else {
        return None;
    };
    Some(match level {
        cmark::HeadingLevel::H1 => HeadingLevel::H1,
        cmark::HeadingLevel::H2 => HeadingLevel::H2,
        cmark::HeadingLevel::H3 => HeadingLevel::H3,
        cmark::HeadingLevel::H4 => HeadingLevel::H4,
        cmark::HeadingLevel::H5 => HeadingLevel::H5,
        cmark::HeadingLevel::H6 => HeadingLevel::H6,
    })
}

/// The signal that [`signal_from`] makes of the readings of an event.
fn signal_of(event: &cmark::Event<'_>) -> Signal {
    signal_from(
        Readings {
            leaf: leaf_signal(event),
            inline_start: inline_start(event),
            block_start: block_start(event),
            code_start: code_start(event),
            table_start: table_start(event),
            inline_end: inline_end(event),
            block_end: block_end(event),
            heading_end: heading_end(event),
        },
    )
}

/// An event of `pulldown_cmark` as this crate holds it, with the range of the
/// source that it covers and the labels that were looked up for it.
pub(crate) fn classify(event: &cmark::Event<'_>, start: usize, end: usize, lookups: Vec<String>) -> (sourced:
    Sourced)
    ensures
        sourced.start == start,
        sourced.end == end,
        sourced.lookups == lookups,
{
    Sourced { signal: signal_of(event), start, end, lookups }
}

/// What the readings of one event of the scanner gave: each reading knows
/// some kinds of event and gives nothing for the others.
#[derive(Debug, PartialEq, Eq)]
pub struct Readings {
    /// A text, a code span, a break, a rule or a task marker.
    pub leaf: Option<Signal>,
    /// The start of strong, emphasised or struck text, of a link or an image.
    pub inline_start: Option<Tag>,
    /// The start of a list, a list entry, a quote, a metadata block or of the
    /// head or a row of a table.
    pub block_start: Option<Tag>,
    /// The start of a code block.
    pub code_start: Option<Tag>,
    /// The start of a table.
    pub table_start: Option<Tag>,
    /// The end of strong, emphasised or struck text, of a link, an image, a
    /// paragraph or a list entry.
    pub inline_end: Option<TagEnd>,
    /// The end of a list, a quote, a code block, a metadata block, a table or
    /// of the head or a cell of a table.
    pub block_end: Option<TagEnd>,
    /// The end of a heading, with its level.
    pub heading_end: Option<HeadingLevel>,
}

/// The signal that readings stand for: what the first reading that gave
/// something gave, in the order of the fields, and [`Signal::Other`] where
/// none gave anything.
pub open spec fn signal_chosen(readings: Readings) -> Signal {
    match readings.leaf {
        Some(signal) => signal,
        None => match readings.inline_start {
            Some(tag) => Signal::Start(tag),
            None => match readings.block_start {
                Some(tag) => Signal::Start(tag),
                None => match readings.code_start {
                    Some(tag) => Signal::Start(tag),
                    None => match readings.table_start {
                        Some(tag) => Signal::Start(tag),
                        None => match readings.inline_end {
                            Some(tag) => Signal::End(tag),
                            None => match readings.block_end {
                                Some(tag) => Signal::End(tag),
                                None => match readings.heading_end {
                                    Some(level) => Signal::End(TagEnd::Heading(level)),
                                    None => Signal::Other,
                                },
                            },
                        },
                    },
                },
            },
        },
    }
}

/// The signal that stands for an event, given what the readings of the event
/// gave.
pub fn signal_from(readings: Readings) -> (signal: Signal)
    ensures
        signal == signal_chosen(readings),
{
    if let Some(signal) = readings.leaf {
        signal
    } else if let Some(tag) = readings.inline_start {
        Signal::Start(tag)
    } else if let Some(tag) = readings.block_start {
        Signal::Start(tag)
    } else if let Some(tag) = readings.code_start {
        Signal::Start(tag)
    } else if let Some(tag) = readings.table_start {
        Signal::Start(tag)
    } else if let Some(tag) = readings.inline_end {
        Signal::End(tag)
    } else if let Some(tag) = readings.block_end {
        Signal::End(tag)
    } else if let Some(level) = readings.heading_end {
        Signal::End(TagEnd::Heading(level))
    } else {
        Signal::Other
    }
}

/// The link reference definitions that `text` holds, from label to
/// destination.
pub uninterp spec fn defined(text: Seq<char>) -> Map<Seq<char>, Seq<char>>;

/// Runs the first pass of `pulldown_cmark::Parser::new_ext` over `text`, with
/// tables, strikethrough and task lists enabled, and copies what
/// `Parser::reference_definitions` then holds: each label with the
/// destination of its definition. The parser keeps one definition for a
/// label; the order in which they come is not fixed.
#[verifier::external_body]
pub(crate) fn definitions(text: &str) -> (found: Vec<Reference>)
    ensures
        definitions_map(found@) == defined(text@),
{
    let options = cmark::Options::ENABLE_TABLES
        | cmark::Options::ENABLE_STRIKETHROUGH
        | cmark::Options::ENABLE_TASKLISTS;
    cmark::Parser::new_ext(text, options)
        .reference_definitions()
        .iter()
        .map(|(label, definition)| Reference {
            label: label.to_owned(),
            destination: definition.dest.to_string(),
        })
        .collect()
}

/// Notes in `seen` that `label` was looked up, and gives the destination that
/// `known` has for it.
pub(crate) fn note_lookup(known: &References, seen: &mut Vec<String>, label: &str) -> (found: Option<
    String,
>)
    ensures
        strings_view(final(seen)@) == strings_view(old(seen)@).push(label@),
        match found {
            Some(destination) => known@.contains_key(label@) && destination@ == known@[label@],
            None => !known@.contains_key(label@),
        },
{
    seen.push(label.to_owned());
    known.destination(label)
}

/// What the scanner reports for `text` when `known` holds the definitions of
/// earlier text.
pub uninterp spec fn scanned(text: Seq<char>, known: Map<Seq<char>, Seq<char>>) -> Seq<SourcedView>;

/// Runs `pulldown_cmark::Parser::new_with_broken_link_callback` over `text`
/// with tables, strikethrough and task lists enabled, and collects what its
/// offset iterator yields, each event as [`classify`] holds it. A label
/// without a definition in `text` is looked up with [`note_lookup`]; each
/// event carries the labels looked up while it was read.
#[verifier::external_body]
pub(crate) fn scan(text: &str, known: &References) -> (events: Vec<Sourced>)
    ensures
        signals_view(events@) == scanned(text@, known@),
{
    let seen = std::cell::RefCell::new(Vec::new());
    let lookup = |link: cmark::BrokenLink<'_>| {
        note_lookup(known, &mut seen.borrow_mut(), &link.reference)
            .map(|found| (found.into(), link.reference.into_static()))
    };
    let options = cmark::Options::ENABLE_TABLES
        | cmark::Options::ENABLE_STRIKETHROUGH
        | cmark::Options::ENABLE_TASKLISTS;
    cmark::Parser::new_with_broken_link_callback(text, options, Some(lookup))
        .into_offset_iter()
        .map(|(event, range)| classify(&event, range.start, range.end, seen.take()))
        .collect()
}

} // verus!
