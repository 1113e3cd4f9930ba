//! From the events of the scanner to blocks: the state that is kept between
//! two events, and what each event does to it.

use vstd::prelude::*;
use vstd::string::StringExecFns;
use crate::markdown::events::{
    signals_view, strings_view, Signal, SignalView, Sourced, SourcedView, Tag, TagEnd, TagView,
};
use crate::markdown::highlighter::{
    after_lines, fresh, highlighted, lemma_after_lines_keeps_language, prepared, ready, view_of,
    Highlighter, HighlighterView,
};
use crate::markdown::model::{
    bullet_view, bullets_view, cells_view, column_view, columns_view, hrefs,
    insert_url, item_view, items_view, language_view, link_view, parse_url, parsed_url, rows_view, spans_view,
    texts_view, Alignment, Bullet, BulletView, Column, ColumnView, Item, ItemView, Row, Span,
    SpanView, Text, Url, UrlView,
};
use crate::markdown::references::References;
use crate::text::{
    lemma_push_to_set, lines, split_lines, take_up_to, to_chars, to_string, up_to,
};

verus! {

/// An element that was opened and can hold blocks.
pub enum ScopeView {
    List { start: Option<u64>, bullets: Seq<BulletView> },
    Quote(Seq<ItemView>),
    /// A table: the alignment that its start declared for each column, the
    /// columns and rows that are complete, and the blocks of the cell that is
    /// being read.
    Table {
        alignment: Seq<Alignment>,
        columns: Seq<ColumnView>,
        rows: Seq<Seq<Seq<ItemView>>>,
        current: Seq<ItemView>,
    },
}

/// A block of the top level as it leaves the builder: the block, the byte
/// range of the source that the event which completed it covers, and the
/// labels that were looked up in vain since the block before it.
pub struct ProducedView {
    pub item: ItemView,
    pub start: usize,
    pub end: usize,
    pub broken: Set<Seq<char>>,
}

/// What the builder keeps between two events.
pub struct BuilderView {
    /// The spans of the text that is being read.
    pub spans: Seq<SpanView>,
    /// The code block that is being read: its text so far, its info string,
    /// and its lines as styled text.
    pub code: Seq<char>,
    pub code_language: Option<Seq<char>>,
    pub code_lines: Seq<Seq<SpanView>>,
    pub strong: bool,
    pub emphasis: bool,
    pub strikethrough: bool,
    /// Whether a metadata block is being read.
    pub metadata: bool,
    /// Whether a code block is being read.
    pub code_block: bool,
    /// The target of the link that is being read.
    pub link: Option<UrlView>,
    /// The source and the title of the image that is being read, where it is
    /// an image that is shown.
    pub image: Option<(UrlView, Seq<char>)>,
    /// How many spans had been read when the image that is being read began.
    pub image_start: Option<nat>,
    /// The open elements that can hold blocks, the innermost last.
    pub stack: Seq<ScopeView>,
    /// The highlighter in use.
    pub active: Option<HighlighterView>,
    /// The highlighter that is kept for the next code block.
    pub kept: Option<HighlighterView>,
    /// The labels looked up in vain since the last block of the top level.
    pub broken: Set<Seq<char>>,
    /// Where the last block of the top level begins in the source.
    pub cut: Option<usize>,
    /// The URLs of the images met so far.
    pub images: Set<Seq<char>>,
}

/// The state before the first event, with the images known so far and the
/// highlighter that was kept.
pub open spec fn initial(images: Set<Seq<char>>, kept: Option<HighlighterView>) -> BuilderView {
    BuilderView {
        spans: Seq::empty(),
        code: Seq::empty(),
        code_language: None,
        code_lines: Seq::empty(),
        strong: false,
        emphasis: false,
        strikethrough: false,
        metadata: false,
        code_block: false,
        link: None,
        image: None,
        image_start: None,
        stack: Seq::empty(),
        active: None,
        kept,
        broken: Set::empty(),
        cut: None,
        images,
    }
}

/// A span of ordinary text in the style that is in force.
pub open spec fn standard(b: BuilderView, text: Seq<char>, code: bool) -> SpanView {
    SpanView::Standard {
        text,
        strikethrough: b.strikethrough,
        link: b.link,
        strong: b.strong,
        emphasis: b.emphasis,
        code,
    }
}

/// The entry with one more block.
pub open spec fn bullet_with(bullet: BulletView, item: ItemView) -> BulletView {
    match bullet {
        BulletView::Point { items } => BulletView::Point { items: items.push(item) },
        BulletView::Task { items, done } => BulletView::Task { items: items.push(item), done },
    }
}

/// The scope with one more block: a list takes it into its last entry, and
/// drops it where no entry was opened; a quote takes it; a table takes it
/// into the cell that is being read.
pub open spec fn scope_with(scope: ScopeView, item: ItemView) -> ScopeView {
    match scope {
        ScopeView::List { start, bullets } => if bullets.len() > 0 {
            ScopeView::List {
                start,
                bullets: bullets.update(bullets.len() - 1, bullet_with(bullets.last(), item)),
            }
        } else {
            scope
        },
        ScopeView::Quote(items) => ScopeView::Quote(items.push(item)),
        ScopeView::Table { alignment, columns, rows, current } => ScopeView::Table {
            alignment,
            columns,
            rows,
            current: current.push(item),
        },
    }
}

/// The stack with another innermost scope in place of the one it has.
pub open spec fn replace_top(stack: Seq<ScopeView>, scope: ScopeView) -> Seq<ScopeView> {
    stack.update(stack.len() - 1, scope)
}

/// A block is complete. Inside an open scope it goes to that scope. At the
/// top level it leaves the builder with the labels looked up in vain, which
/// are then forgotten, and the source from its start on is what the builder
/// has still to account for.
pub open spec fn emit(b: BuilderView, item: ItemView, start: usize, end: usize) -> (
    BuilderView,
    Option<ProducedView>,
) {
    if b.stack.len() == 0 {
        (
            BuilderView { broken: Set::empty(), cut: Some(start), ..b },
            Some(ProducedView { item, start, end, broken: b.broken }),
        )
    } else {
        (BuilderView { stack: replace_top(b.stack, scope_with(b.stack.last(), item)), ..b }, None)
    }
}

/// The spans read so far become a paragraph, if there are any.
pub open spec fn flush(b: BuilderView, start: usize, end: usize) -> (
    BuilderView,
    Option<ProducedView>,
) {
    if b.spans.len() == 0 {
        (b, None)
    } else {
        emit(BuilderView { spans: Seq::empty(), ..b }, ItemView::Paragraph(b.spans), start, end)
    }
}

/// A scope opens, after the spans read so far became a paragraph.
pub open spec fn open_scope(b: BuilderView, scope: ScopeView, start: usize, end: usize) -> (
    BuilderView,
    Option<ProducedView>,
) {
    let (flushed, produced) = flush(b, start, end);
    (BuilderView { stack: flushed.stack.push(scope), ..flushed }, produced)
}

/// Whether a link with this scheme is followed.
pub open spec fn is_link_scheme(scheme: Seq<char>) -> bool {
    scheme == "http"@ || scheme == "https"@
}

/// Whether an image with this scheme is shown.
pub open spec fn is_image_scheme(scheme: Seq<char>) -> bool {
    scheme == "http"@ || scheme == "https"@ || scheme == "file"@
}

/// The highlighter for a code block with this info string: the highlighter
/// that was kept, with the lines it remembers and back at the first line,
/// where it is for the info string; else a new one for the info string up to
/// its first comma.
pub open spec fn highlighter_for(kept: Option<HighlighterView>, info: Seq<char>) -> HighlighterView {
    match kept {
        Some(h) => if h.language == info {
            prepared(h)
        } else {
            fresh(up_to(info, ','))
        },
        None => fresh(up_to(info, ',')),
    }
}

/// The spans that are left when an image ends that is not shown: those that
/// had been read when the image began, so that its alternative text is gone.
pub open spec fn without_alt(spans: Seq<SpanView>, image_start: Option<nat>) -> Seq<SpanView> {
    match image_start {
        Some(n) => if n <= spans.len() {
            spans.take(n as int)
        } else {
            spans
        },
        None => spans,
    }
}

/// An element opens.
pub open spec fn opened(b: BuilderView, tag: TagView, start: usize, end: usize) -> (
    BuilderView,
    Option<ProducedView>,
) {
    match tag {
        TagView::Item => (
            if b.stack.len() > 0 && b.stack.last() is List {
                BuilderView {
                    stack: replace_top(
                        b.stack,
                        ScopeView::List {
                            start: b.stack.last()->List_start,
                            bullets: b.stack.last()->bullets.push(
                                BulletView::Point { items: Seq::empty() },
                            ),
                        },
                    ),
                    ..b
                }
            } else {
                b
            },
            None,
        ),
        TagView::MetadataBlock => (BuilderView { metadata: true, ..b }, None),
        TagView::Table(alignment) => (
            BuilderView {
                stack: b.stack.push(
                    ScopeView::Table {
                        alignment,
                        columns: Seq::empty(),
                        rows: Seq::empty(),
                        current: Seq::empty(),
                    },
                ),
                ..b
            },
            None,
        ),
        TagView::TableHead => (BuilderView { strong: true, ..b }, None),
        TagView::TableRow => (
            if b.stack.len() > 0 && b.stack.last() is Table {
                BuilderView {
                    stack: replace_top(
                        b.stack,
                        ScopeView::Table {
                            alignment: b.stack.last()->alignment,
                            columns: b.stack.last()->columns,
                            rows: b.stack.last()->rows.push(Seq::empty()),
                            current: b.stack.last()->current,
                        },
                    ),
                    ..b
                }
            } else {
                b
            },
            None,
        ),
        _ => if b.metadata {
            (b, None)
        } else {
            match tag {
                TagView::Strong => (BuilderView { strong: true, ..b }, None),
                TagView::Emphasis => (BuilderView { emphasis: true, ..b }, None),
                TagView::Strikethrough => (BuilderView { strikethrough: true, ..b }, None),
                TagView::Link { dest_url } => (
                    match parsed_url(dest_url) {
                        Some(url) => if is_link_scheme(url.scheme) {
                            BuilderView { link: Some(url), ..b }
                        } else {
                            b
                        },
                        None => b,
                    },
                    None,
                ),
                TagView::Image { dest_url, title } => (
                    match parsed_url(dest_url) {
                        Some(url) => if is_image_scheme(url.scheme) {
                            BuilderView {
                                image: Some((url, title)),
                                image_start: Some(b.spans.len()),
                                ..b
                            }
                        } else {
                            BuilderView { image_start: Some(b.spans.len()), ..b }
                        },
                        None => BuilderView { image_start: Some(b.spans.len()), ..b },
                    },
                    None,
                ),
                TagView::List(first) => open_scope(
                    b,
                    ScopeView::List { start: first, bullets: Seq::empty() },
                    start,
                    end,
                ),
                TagView::BlockQuote => open_scope(b, ScopeView::Quote(Seq::empty()), start, end),
                TagView::CodeBlock(info) => flush(
                    BuilderView {
                        active: if info.len() > 0 {
                            Some(highlighter_for(b.kept, info))
                        } else {
                            None
                        },
                        kept: None,
                        code_block: true,
                        code_language: if info.len() > 0 {
                            Some(info)
                        } else {
                            None
                        },
                        ..b
                    },
                    start,
                    end,
                ),
                _ => (b, None),
            }
        },
    }
}

/// The innermost scope closes.
pub open spec fn popped(b: BuilderView) -> BuilderView {
    BuilderView { stack: b.stack.drop_last(), ..b }
}

/// A cell of a table is complete. While the table has fewer columns than its
/// start declared, the cell is the header of the next column; after that it
/// goes to the last row, and is dropped where no row was opened.
pub open spec fn cell_closed(scope: ScopeView) -> ScopeView {
    match scope {
        ScopeView::Table { alignment, columns, rows, current } => {
            if columns.len() < alignment.len() {
                ScopeView::Table {
                    alignment,
                    columns: columns.push(
                        ColumnView { header: current, alignment: alignment[columns.len() as int] },
                    ),
                    rows,
                    current: Seq::empty(),
                }
            } else if rows.len() > 0 {
                ScopeView::Table {
                    alignment,
                    columns,
                    rows: rows.update(rows.len() - 1, rows.last().push(current)),
                    current: Seq::empty(),
                }
            } else {
                ScopeView::Table { alignment, columns, rows, current: Seq::empty() }
            }
        },
        _ => scope,
    }
}

/// An element closes.
pub open spec fn closed(b: BuilderView, tag: TagEnd, start: usize, end: usize) -> (
    BuilderView,
    Option<ProducedView>,
) {
    match tag {
        TagEnd::MetadataBlock => (BuilderView { metadata: false, ..b }, None),
        TagEnd::Table => if b.stack.len() == 0 {
            (b, None)
        } else {
            match b.stack.last() {
                ScopeView::Table { columns, rows, .. } => emit(
                    popped(b),
                    ItemView::Table { columns, rows },
                    start,
                    end,
                ),
                _ => (popped(b), None),
            }
        },
        TagEnd::TableHead => (BuilderView { strong: false, ..b }, None),
        TagEnd::TableCell => {
            let flushed = flush(b, start, end).0;
            (
                if flushed.stack.len() > 0 {
                    BuilderView {
                        stack: replace_top(flushed.stack, cell_closed(flushed.stack.last())),
                        ..flushed
                    }
                } else {
                    flushed
                },
                None,
            )
        },
        _ => if b.metadata {
            (b, None)
        } else {
            match tag {
                TagEnd::Heading(level) => emit(
                    BuilderView { spans: Seq::empty(), ..b },
                    ItemView::Heading(level, b.spans),
                    start,
                    end,
                ),
                TagEnd::Strong => (BuilderView { strong: false, ..b }, None),
                TagEnd::Emphasis => (BuilderView { emphasis: false, ..b }, None),
                TagEnd::Strikethrough => (BuilderView { strikethrough: false, ..b }, None),
                TagEnd::Link => (BuilderView { link: None, ..b }, None),
                TagEnd::Paragraph => flush(b, start, end),
                TagEnd::Item => flush(b, start, end),
                TagEnd::List => if b.stack.len() == 0 {
                    (b, None)
                } else {
                    match b.stack.last() {
                        ScopeView::List { start: first, bullets } => emit(
                            popped(b),
                            ItemView::List { start: first, bullets },
                            start,
                            end,
                        ),
                        _ => (popped(b), None),
                    }
                },
                TagEnd::BlockQuote => if b.stack.len() == 0 {
                    (b, None)
                } else {
                    match b.stack.last() {
                        ScopeView::Quote(items) => emit(
                            popped(b),
                            ItemView::Quote(items),
                            start,
                            end,
                        ),
                        _ => (popped(b), None),
                    }
                },
                TagEnd::Image => match b.image {
                    Some((url, title)) => emit(
                        BuilderView {
                            image: None,
                            image_start: None,
                            spans: Seq::empty(),
                            images: b.images.insert(url.href),
                            ..b
                        },
                        ItemView::Image { url, title, alt: b.spans },
                        start,
                        end,
                    ),
                    None => (
                        BuilderView {
                            spans: without_alt(b.spans, b.image_start),
                            image_start: None,
                            ..b
                        },
                        None,
                    ),
                },
                TagEnd::CodeBlock => emit(
                    BuilderView {
                        code_block: false,
                        kept: b.active,
                        active: None,
                        code_language: None,
                        code: Seq::empty(),
                        code_lines: Seq::empty(),
                        ..b
                    },
                    ItemView::CodeBlock {
                        language: b.code_language,
                        code: b.code,
                        lines: b.code_lines,
                    },
                    start,
                    end,
                ),
                _ => (b, None),
            }
        },
    }
}

/// One line of a code block as styled text: highlighted where a highlighter
/// is in use, else one span of ordinary text.
pub open spec fn code_line(b: BuilderView, line: Seq<char>) -> Seq<SpanView> {
    match b.active {
        Some(highlighter) => highlighted(highlighter.language, line),
        None => seq![standard(b, line, false)],
    }
}

/// Text arrives: inside a code block it is code, whose lines are styled one
/// by one; elsewhere it is a span.
pub open spec fn with_text(b: BuilderView, text: Seq<char>) -> BuilderView {
    if b.code_block {
        let lines = split_lines(text);
        BuilderView {
            code: b.code + text,
            code_lines: b.code_lines + Seq::new(lines.len(), |i: int| code_line(b, lines[i])),
            active: match b.active {
                Some(highlighter) => Some(after_lines(highlighter, lines)),
                None => None,
            },
            ..b
        }
    } else {
        BuilderView { spans: b.spans.push(standard(b, text, false)), ..b }
    }
}

/// A task marker arrives: the last entry of the innermost list, if it is a
/// plain entry, becomes a task.
pub open spec fn with_task_marker(b: BuilderView, done: bool) -> BuilderView {
    if b.stack.len() > 0 {
        match b.stack.last() {
            ScopeView::List { start, bullets } => if bullets.len() > 0 {
                match bullets.last() {
                    BulletView::Point { items } => BuilderView {
                        stack: replace_top(
                            b.stack,
                            ScopeView::List {
                                start,
                                bullets: bullets.update(
                                    bullets.len() - 1,
                                    BulletView::Task { items, done },
                                ),
                            },
                        ),
                        ..b
                    },
                    _ => b,
                }
            } else {
                b
            },
            _ => b,
        }
    } else {
        b
    }
}

/// What one signal of the scanner does.
pub open spec fn signalled(b: BuilderView, signal: SignalView, start: usize, end: usize) -> (
    BuilderView,
    Option<ProducedView>,
) {
    match signal {
        SignalView::Start(tag) => opened(b, tag, start, end),
        SignalView::End(tag) => closed(b, tag, start, end),
        SignalView::Rule => emit(b, ItemView::Rule, start, end),
        SignalView::TaskListMarker(done) => (with_task_marker(b, done), None),
        _ => if b.metadata {
            (b, None)
        } else {
            match signal {
                SignalView::Text(text) => (with_text(b, text), None),
                SignalView::Code(text) => (
                    BuilderView { spans: b.spans.push(standard(b, text, true)), ..b },
                    None,
                ),
                SignalView::SoftBreak => (
                    BuilderView { spans: b.spans.push(standard(b, seq![' '], false)), ..b },
                    None,
                ),
                SignalView::HardBreak => (
                    BuilderView { spans: b.spans.push(standard(b, seq!['\n'], false)), ..b },
                    None,
                ),
                _ => (b, None),
            }
        },
    }
}

/// The labels among `lookups` that `known` does not define.
pub open spec fn unresolved(lookups: Seq<Seq<char>>, known: Map<Seq<char>, Seq<char>>) -> Set<
    Seq<char>,
> {
    Set::new(|label: Seq<char>| lookups.contains(label) && !known.contains_key(label))
}

/// What one event of the scanner does: the labels that were looked up in vain
/// for it are noted, then its signal is acted on.
pub open spec fn stepped(b: BuilderView, event: SourcedView, known: Map<Seq<char>, Seq<char>>) -> (
    BuilderView,
    Option<ProducedView>,
) {
    signalled(
        BuilderView { broken: b.broken.union(unresolved(event.lookups, known)), ..b },
        event.signal,
        event.start,
        event.end,
    )
}

/// What a sequence of events does, and the blocks of the top level that leave
/// the builder on the way, in order.
pub open spec fn ran(b: BuilderView, events: Seq<SourcedView>, known: Map<Seq<char>, Seq<char>>) -> (
    BuilderView,
    Seq<ProducedView>,
)
    decreases events.len(),
{
    if events.len() == 0 {
        (b, Seq::empty())
    } else {
        let (before, produced) = ran(b, events.drop_last(), known);
        let (after, last) = stepped(before, events.last(), known);
        (
            after,
            match last {
                Some(block) => produced.push(block),
                None => produced,
            },
        )
    }
}

/// Whether the columns of a table that is being read are aligned, in order,
/// as the start of the table declared.
pub open spec fn is_aligned(scope: ScopeView) -> bool {
    match scope {
        ScopeView::Table { alignment, columns, .. } => {
            &&& columns.len() <= alignment.len()
            &&& forall|i: int|
                0 <= i < columns.len() ==> (#[trigger] columns[i]).alignment == alignment[i]
        },
        _ => true,
    }
}

/// Whether every open table is aligned as its start declared.
pub open spec fn all_aligned(b: BuilderView) -> bool {
    forall|i: int| 0 <= i < b.stack.len() ==> is_aligned(#[trigger] b.stack[i])
}

/// Before the first event no table is open, so every open table is aligned
/// as its start declared.
pub proof fn lemma_initial_is_aligned(images: Set<Seq<char>>, kept: Option<HighlighterView>)
    ensures
        all_aligned(initial(images, kept)),
{
}

/// Whatever event arrives, the columns of every open table stay aligned, in
/// order, as the start of that table declared: a column takes its alignment
/// from its position alone, never from what its cells hold.
pub proof fn lemma_step_keeps_alignment(
    b: BuilderView,
    event: SourcedView,
    known: Map<Seq<char>, Seq<char>>,
)
    requires
        all_aligned(b),
    ensures
        all_aligned(stepped(b, event, known).0),
{
    match event.signal {
        SignalView::Start(_) => {},
        SignalView::End(_) => {},
        _ => {},
    }
}

/// After any sequence of events from the start, every open table is aligned
/// as its start declared.
pub proof fn lemma_run_keeps_alignment(
    b: BuilderView,
    events: Seq<SourcedView>,
    known: Map<Seq<char>, Seq<char>>,
)
    requires
        all_aligned(b),
    ensures
        all_aligned(ran(b, events, known).0),
    decreases events.len(),
{
    if events.len() > 0 {
        lemma_run_keeps_alignment(b, events.drop_last(), known);
        lemma_step_keeps_alignment(ran(b, events.drop_last(), known).0, events.last(), known);
    }
}

/// A table that closes at the top level leaves the builder with the columns
/// it had, so with the alignments that its start declared, in order.
pub proof fn lemma_closed_table_is_aligned(b: BuilderView, start: usize, end: usize)
    requires
        all_aligned(b),
        b.stack.len() == 1,
        b.stack.last() is Table,
    ensures
        closed(b, TagEnd::Table, start, end).1 is Some,
        closed(b, TagEnd::Table, start, end).1->0.item is Table,
        ({
            let columns = closed(b, TagEnd::Table, start, end).1->0.item->Table_columns;
            let declared = b.stack.last()->alignment;
            &&& columns == b.stack.last()->columns
            &&& columns.len() <= declared.len()
            &&& forall|i: int| 0 <= i < columns.len() ==> (#[trigger] columns[i]).alignment == declared[i]
        }),
{
}

/// Whether the table at position `k` among the open scopes has all the
/// columns that its start declared, as it has once its head is read.
pub open spec fn has_settled_columns(b: BuilderView, k: int) -> bool {
    &&& 0 <= k < b.stack.len()
    &&& b.stack[k] is Table
    &&& b.stack[k]->columns.len() >= b.stack[k]->alignment.len()
}

/// Whether the scope at position `k` is, after a step, the table it was, with
/// the columns and the alignments it had.
pub open spec fn keeps_columns(before: BuilderView, after: BuilderView, k: int) -> bool {
    &&& k < after.stack.len()
    &&& after.stack[k] is Table
    &&& after.stack[k]->columns == before.stack[k]->columns
    &&& after.stack[k]->alignment == before.stack[k]->alignment
}

proof fn lemma_emit_keeps_columns(b: BuilderView, item: ItemView, start: usize, end: usize, k: int)
    requires
        has_settled_columns(b, k),
    ensures
        keeps_columns(b, emit(b, item, start, end).0, k),
        emit(b, item, start, end).0.stack.len() == b.stack.len(),
{
}

proof fn lemma_flush_keeps_columns(b: BuilderView, start: usize, end: usize, k: int)
    requires
        has_settled_columns(b, k),
    ensures
        keeps_columns(b, flush(b, start, end).0, k),
        flush(b, start, end).0.stack.len() == b.stack.len(),
{
    if b.spans.len() > 0 {
        lemma_emit_keeps_columns(
            BuilderView { spans: Seq::empty(), ..b },
            ItemView::Paragraph(b.spans),
            start,
            end,
            k,
        );
    }
}

proof fn lemma_opened_keeps_columns(b: BuilderView, tag: TagView, start: usize, end: usize, k: int)
    requires
        has_settled_columns(b, k),
    ensures
        keeps_columns(b, opened(b, tag, start, end).0, k),
{
    match tag {
        TagView::Item => {},
        TagView::MetadataBlock => {},
        TagView::Table(_) => {},
        TagView::TableHead => {},
        TagView::TableRow => {},
        _ => {
            if !b.metadata {
                match tag {
                    TagView::List(_) => {
                        lemma_flush_keeps_columns(b, start, end, k);
                    },
                    TagView::BlockQuote => {
                        lemma_flush_keeps_columns(b, start, end, k);
                    },
                    TagView::CodeBlock(info) => {
                        lemma_flush_keeps_columns(
                            BuilderView {
                                active: if info.len() > 0 {
                                    Some(highlighter_for(b.kept, info))
                                } else {
                                    None
                                },
                                kept: None,
                                code_block: true,
                                code_language: if info.len() > 0 {
                                    Some(info)
                                } else {
                                    None
                                },
                                ..b
                            },
                            start,
                            end,
                            k,
                        );
                    },
                    _ => {},
                }
            }
        },
    }
}

/// What closing the innermost scope leaves of a settled table: the table as
/// it was while another scope closes, and the block with its columns when it
/// closes itself at the top level.
proof fn lemma_popped_keeps_columns(b: BuilderView, item: ItemView, start: usize, end: usize, k: int)
    requires
        has_settled_columns(b, k),
        k < b.stack.len() - 1,
    ensures
        keeps_columns(b, emit(popped(b), item, start, end).0, k),
        keeps_columns(b, popped(b), k),
{
    lemma_emit_keeps_columns(popped(b), item, start, end, k);
}

proof fn lemma_closed_keeps_columns(b: BuilderView, tag: TagEnd, start: usize, end: usize, k: int)
    requires
        has_settled_columns(b, k),
    ensures
        k < closed(b, tag, start, end).0.stack.len() ==> keeps_columns(
            b,
            closed(b, tag, start, end).0,
            k,
        ),
        k >= closed(b, tag, start, end).0.stack.len() ==> k == b.stack.len() - 1,
        k >= closed(b, tag, start, end).0.stack.len() && k == 0 && tag == TagEnd::Table ==> (closed(
            b,
            tag,
            start,
            end,
        ).1 matches Some(block) && (block.item matches ItemView::Table { columns, .. } && columns
            == b.stack[k]->columns)),
{
    let top = b.stack.len() - 1;
    match tag {
        TagEnd::MetadataBlock => {},
        TagEnd::Table => {
            if k < top {
                match b.stack.last() {
                    ScopeView::Table { columns, rows, .. } => {
                        lemma_popped_keeps_columns(
                            b,
                            ItemView::Table { columns, rows },
                            start,
                            end,
                            k,
                        );
                    },
                    _ => {},
                }
            }
        },
        TagEnd::TableHead => {},
        TagEnd::TableCell => {
            lemma_flush_keeps_columns(b, start, end, k);
        },
        _ => {
            if !b.metadata {
                match tag {
                    TagEnd::Heading(level) => {
                        lemma_emit_keeps_columns(
                            BuilderView { spans: Seq::empty(), ..b },
                            ItemView::Heading(level, b.spans),
                            start,
                            end,
                            k,
                        );
                    },
                    TagEnd::Paragraph => {
                        lemma_flush_keeps_columns(b, start, end, k);
                    },
                    TagEnd::Item => {
                        lemma_flush_keeps_columns(b, start, end, k);
                    },
                    TagEnd::List => {
                        if k < top {
                            match b.stack.last() {
                                ScopeView::List { start: first, bullets } => {
                                    lemma_popped_keeps_columns(
                                        b,
                                        ItemView::List { start: first, bullets },
                                        start,
                                        end,
                                        k,
                                    );
                                },
                                _ => {},
                            }
                        }
                    },
                    TagEnd::BlockQuote => {
                        if k < top {
                            match b.stack.last() {
                                ScopeView::Quote(items) => {
                                    lemma_popped_keeps_columns(
                                        b,
                                        ItemView::Quote(items),
                                        start,
                                        end,
                                        k,
                                    );
                                },
                                _ => {},
                            }
                        }
                    },
                    TagEnd::Image => {
                        match b.image {
                            Some((url, title)) => {
                                lemma_emit_keeps_columns(
                                    BuilderView {
                                        image: None,
                                        image_start: None,
                                        spans: Seq::empty(),
                                        images: b.images.insert(url.href),
                                        ..b
                                    },
                                    ItemView::Image { url, title, alt: b.spans },
                                    start,
                                    end,
                                    k,
                                );
                            },
                            None => {},
                        }
                    },
                    TagEnd::CodeBlock => {
                        lemma_emit_keeps_columns(
                            BuilderView {
                                code_block: false,
                                kept: b.active,
                                active: None,
                                code_language: None,
                                code: Seq::empty(),
                                code_lines: Seq::empty(),
                                ..b
                            },
                            ItemView::CodeBlock {
                                language: b.code_language,
                                code: b.code,
                                lines: b.code_lines,
                            },
                            start,
                            end,
                            k,
                        );
                    },
                    _ => {},
                }
            }
        },
    }
}

/// The rows of a table decide its rows only. Once a table has all the columns
/// that its start declared, no event changes the number, the order, the
/// headers or the alignment of its columns while it is open; and when it
/// closes at the top level, the block that leaves the builder has exactly
/// those columns.
pub proof fn lemma_step_keeps_settled_columns(
    b: BuilderView,
    event: SourcedView,
    known: Map<Seq<char>, Seq<char>>,
    k: int,
)
    requires
        has_settled_columns(b, k),
    ensures
        k < stepped(b, event, known).0.stack.len() ==> keeps_columns(
            b,
            stepped(b, event, known).0,
            k,
        ),
        k >= stepped(b, event, known).0.stack.len() ==> k == b.stack.len() - 1,
        k >= stepped(b, event, known).0.stack.len() && k == 0 && event.signal == SignalView::End(
            TagEnd::Table,
        ) ==> (stepped(b, event, known).1 matches Some(block) && (block.item matches ItemView::Table {
            columns,
            ..
        } && columns == b.stack[k]->columns)),
{
    let noted = BuilderView { broken: b.broken.union(unresolved(event.lookups, known)), ..b };
    match event.signal {
        SignalView::Start(tag) => {
            lemma_opened_keeps_columns(noted, tag, event.start, event.end, k);
        },
        SignalView::End(tag) => {
            lemma_closed_keeps_columns(noted, tag, event.start, event.end, k);
        },
        SignalView::Rule => {
            lemma_emit_keeps_columns(noted, ItemView::Rule, event.start, event.end, k);
        },
        _ => {},
    }
}

/// Whether the scope at position `k` stays open through all of `events`.
pub open spec fn stays_open(
    b: BuilderView,
    events: Seq<SourcedView>,
    known: Map<Seq<char>, Seq<char>>,
    k: int,
) -> bool
    decreases events.len(),
{
    if events.len() == 0 {
        k < b.stack.len()
    } else {
        stays_open(b, events.drop_last(), known, k) && k < ran(b, events, known).0.stack.len()
    }
}

/// While a table with all its columns stays open, it keeps its columns,
/// whatever events arrive.
pub proof fn lemma_run_keeps_settled_columns(
    b: BuilderView,
    events: Seq<SourcedView>,
    known: Map<Seq<char>, Seq<char>>,
    k: int,
)
    requires
        has_settled_columns(b, k),
        stays_open(b, events, known, k),
    ensures
        keeps_columns(b, ran(b, events, known).0, k),
    decreases events.len(),
{
    if events.len() > 0 {
        lemma_run_keeps_settled_columns(b, events.drop_last(), known, k);
        lemma_step_keeps_settled_columns(
            ran(b, events.drop_last(), known).0,
            events.last(),
            known,
            k,
        );
    }
}

/// The columns of a table are those that it had when its head was read,
/// whatever its rows hold: if a table at the top level has all its columns,
/// stays open through `rows` and is then closed by `last`, the block that
/// leaves the builder is a table with exactly those columns.
pub proof fn lemma_rows_do_not_decide_columns(
    b: BuilderView,
    rows: Seq<SourcedView>,
    last: SourcedView,
    known: Map<Seq<char>, Seq<char>>,
)
    requires
        has_settled_columns(b, 0),
        stays_open(b, rows, known, 0),
        ran(b, rows, known).0.stack.len() == 1,
        last.signal == SignalView::End(TagEnd::Table),
    ensures
        stepped(ran(b, rows, known).0, last, known).1 matches Some(block)
            && (block.item matches ItemView::Table { columns, .. } && columns
            == b.stack[0]->columns),
{
    lemma_run_keeps_settled_columns(b, rows, known, 0);
    lemma_step_keeps_settled_columns(ran(b, rows, known).0, last, known, 0);
}

/// Whether the image that is being read, if one is, has a scheme that images
/// are shown for.
pub open spec fn image_is_shown(b: BuilderView) -> bool {
    match b.image {
        Some((url, _)) => is_image_scheme(url.scheme),
        None => true,
    }
}

/// An image with another scheme than those of the web and of files never
/// becomes a block: whatever event arrives, the image that is being read has
/// an allowed scheme, and so has an image that leaves the builder.
pub proof fn lemma_step_keeps_image_scheme(
    b: BuilderView,
    event: SourcedView,
    known: Map<Seq<char>, Seq<char>>,
)
    requires
        image_is_shown(b),
    ensures
        image_is_shown(stepped(b, event, known).0),
        stepped(b, event, known).1 matches Some(block) ==> (block.item matches ItemView::Image {
            url,
            ..
        } ==> is_image_scheme(url.scheme)),
{
    match event.signal {
        SignalView::Start(_) => {},
        SignalView::End(_) => {},
        _ => {},
    }
}

/// An element that was opened and can hold blocks.
enum Scope {
    List { start: Option<u64>, bullets: Vec<Bullet> },
    Quote(Vec<Item>),
    Table { alignment: Vec<Alignment>, columns: Vec<Column>, rows: Vec<Row>, current: Vec<Item> },
}

/// A block of the top level as it leaves the builder.
#[derive(Debug, PartialEq, Eq)]
pub struct Produced {
    pub item: Item,
    /// Where the source of the block begins, in bytes.
    pub start: usize,
    /// Where the source of the block ends, in bytes.
    pub end: usize,
    /// The labels that were looked up in vain since the block before.
    pub broken: Vec<String>,
}

/// The set of the strings in `labels`.
pub open spec fn label_set(labels: Seq<String>) -> Set<Seq<char>> {
    strings_view(labels).to_set()
}

impl View for Produced {
    type V = ProducedView;

    open spec fn view(&self) -> ProducedView {
        ProducedView {
            item: item_view(self.item),
            start: self.start,
            end: self.end,
            broken: label_set(self.broken@),
        }
    }
}

/// The value of a block that may have left the builder.
pub open spec fn produced_view(produced: Option<Produced>) -> Option<ProducedView> {
    match produced {
        Some(block) => Some(block@),
        None => None,
    }
}

spec fn scope_view(scope: Scope) -> ScopeView {
    match scope {
        Scope::List { start, bullets } => ScopeView::List { start, bullets: bullets_view(bullets) },
        Scope::Quote(items) => ScopeView::Quote(items_view(items)),
        Scope::Table { alignment, columns, rows, current } => ScopeView::Table {
            alignment: alignment@,
            columns: columns_view(columns),
            rows: rows_view(rows),
            current: items_view(current),
        },
    }
}

spec fn stack_view(stack: Seq<Scope>) -> Seq<ScopeView> {
    Seq::new(stack.len(), |i: int| scope_view(stack[i]))
}

spec fn image_view(image: Option<(Url, String)>) -> Option<(UrlView, Seq<char>)> {
    match image {
        Some((url, title)) => Some((url@, title@)),
        None => None,
    }
}

fn push_item(items: &mut Vec<Item>, item: Item)
    ensures
        items_view(*final(items)) == items_view(*old(items)).push(item_view(item)),
{
    items.push(item);
}

fn push_bullet(bullets: &mut Vec<Bullet>, bullet: Bullet)
    ensures
        bullets_view(*final(bullets)) == bullets_view(*old(bullets)).push(bullet_view(bullet)),
{
    bullets.push(bullet);
}

fn pop_bullet(bullets: &mut Vec<Bullet>) -> (last: Option<Bullet>)
    ensures
        match last {
            Some(bullet) => {
                &&& bullets_view(*old(bullets)).len() > 0
                &&& bullet_view(bullet) == bullets_view(*old(bullets)).last()
                &&& bullets_view(*final(bullets)) == bullets_view(*old(bullets)).drop_last()
            },
            None => {
                &&& bullets_view(*old(bullets)).len() == 0
                &&& bullets_view(*final(bullets)) == bullets_view(*old(bullets))
            },
        },
{
    bullets.pop()
}

fn push_column(columns: &mut Vec<Column>, column: Column)
    ensures
        columns_view(*final(columns)) == columns_view(*old(columns)).push(column_view(column)),
{
    columns.push(column);
}

fn push_row(rows: &mut Vec<Row>, row: Row)
    ensures
        rows_view(*final(rows)) == rows_view(*old(rows)).push(cells_view(row.cells)),
{
    rows.push(row);
}

fn pop_row(rows: &mut Vec<Row>) -> (last: Option<Row>)
    ensures
        match last {
            Some(row) => {
                &&& rows_view(*old(rows)).len() > 0
                &&& cells_view(row.cells) == rows_view(*old(rows)).last()
                &&& rows_view(*final(rows)) == rows_view(*old(rows)).drop_last()
            },
            None => {
                &&& rows_view(*old(rows)).len() == 0
                &&& rows_view(*final(rows)) == rows_view(*old(rows))
            },
        },
{
    rows.pop()
}

fn push_cell(cells: &mut Vec<Vec<Item>>, cell: Vec<Item>)
    ensures
        cells_view(*final(cells)) == cells_view(*old(cells)).push(items_view(cell)),
{
    cells.push(cell);
}

/// The entry with one more block.
fn bullet_put(bullet: Bullet, item: Item) -> (r: Bullet)
    ensures
        bullet_view(r) == bullet_with(bullet_view(bullet), item_view(item)),
{
    match bullet {
        Bullet::Point { mut items } => {
            push_item(&mut items, item);
            Bullet::Point { items }
        },
        Bullet::Task { mut items, done } => {
            push_item(&mut items, item);
            Bullet::Task { items, done }
        },
    }
}

/// The scope with one more block.
fn scope_put(scope: Scope, item: Item) -> (r: Scope)
    ensures
        scope_view(r) == scope_with(scope_view(scope), item_view(item)),
{
    match scope {
        Scope::List { start, mut bullets } => {
            let ghost before = bullets_view(bullets);
            match pop_bullet(&mut bullets) {
                Some(bullet) => {
                    push_bullet(&mut bullets, bullet_put(bullet, item));
                    assert(bullets_view(bullets) =~= before.update(
                        before.len() - 1,
                        bullet_with(before.last(), item_view(item)),
                    ));
                },
                None => {},
            }
            Scope::List { start, bullets }
        },
        Scope::Quote(mut items) => {
            push_item(&mut items, item);
            Scope::Quote(items)
        },
        Scope::Table { alignment, columns, rows, mut current } => {
            push_item(&mut current, item);
            Scope::Table { alignment, columns, rows, current }
        },
    }
}

/// The table with the cell that was being read in its place.
fn close_cell(scope: Scope) -> (r: Scope)
    ensures
        scope_view(r) == cell_closed(scope_view(scope)),
{
    match scope {
        Scope::Table { alignment, mut columns, mut rows, current } => {
            if columns.len() < alignment.len() {
                let column = Column { header: current, alignment: alignment[columns.len()] };
                push_column(&mut columns, column);
                let r = Scope::Table { alignment, columns, rows, current: Vec::new() };
                assert(items_view(r->current) =~= Seq::empty());
                r
            } else {
                let ghost before = rows_view(rows);
                match pop_row(&mut rows) {
                    Some(row) => {
                        let mut cells = row.cells;
                        push_cell(&mut cells, current);
                        push_row(&mut rows, Row { cells });
                        assert(rows_view(rows) =~= before.update(
                            before.len() - 1,
                            before.last().push(items_view(current)),
                        ));
                    },
                    None => {},
                }
                let r = Scope::Table { alignment, columns, rows, current: Vec::new() };
                assert(items_view(r->current) =~= Seq::empty());
                r
            }
        },
        other => other,
    }
}

/// The state of the block builder between two events.
pub struct Builder {
    spans: Vec<Span>,
    code: String,
    code_language: Option<String>,
    code_lines: Vec<Text>,
    strong: bool,
    emphasis: bool,
    strikethrough: bool,
    metadata: bool,
    code_block: bool,
    link: Option<Url>,
    image: Option<(Url, String)>,
    image_start: Option<usize>,
    stack: Vec<Scope>,
    highlighter: Option<Highlighter>,
    kept: Option<Highlighter>,
    broken: Vec<String>,
    cut: Option<usize>,
    images: Vec<Url>,
}

impl View for Builder {
    type V = BuilderView;

    closed spec fn view(&self) -> BuilderView {
        BuilderView {
            spans: spans_view(self.spans@),
            code: self.code@,
            code_language: language_view(self.code_language),
            code_lines: texts_view(self.code_lines@),
            strong: self.strong,
            emphasis: self.emphasis,
            strikethrough: self.strikethrough,
            metadata: self.metadata,
            code_block: self.code_block,
            link: link_view(self.link),
            image: image_view(self.image),
            image_start: match self.image_start {
                Some(n) => Some(n as nat),
                None => None,
            },
            stack: stack_view(self.stack@),
            active: view_of(self.highlighter),
            kept: view_of(self.kept),
            broken: label_set(self.broken@),
            cut: self.cut,
            images: hrefs(self.images@),
        }
    }
}

/// Whether every URL has a scheme that images are shown for.
pub open spec fn all_shown(urls: Seq<Url>) -> bool {
    forall|i: int| 0 <= i < urls.len() ==> is_image_scheme((#[trigger] urls[i]).scheme@)
}

/// Whether `scheme` is one of `schemes`.
fn is_one_of(scheme: &String, first: &str, second: &str, third: &str) -> (r: bool)
    ensures
        r == (scheme@ == first@ || scheme@ == second@ || scheme@ == third@),
{
    *scheme == String::from_str(first) || *scheme == String::from_str(second) || *scheme
        == String::from_str(third)
}

impl Builder {
    /// The highlighters that the builder holds are sound, and the images it
    /// holds have schemes that images are shown for.
    pub closed spec fn wf(&self) -> bool {
        &&& ready(self.highlighter)
        &&& ready(self.kept)
        &&& all_shown(self.images@)
        &&& self.image matches Some((url, _)) ==> is_image_scheme(url.scheme@)
    }

    /// A builder before the first event, which knows `images` and keeps the
    /// highlighter `kept` for the first code block.
    pub fn new(images: Vec<Url>, kept: Option<Highlighter>) -> (builder: Self)
        requires
            ready(kept),
            all_shown(images@),
        ensures
            builder.wf(),
            builder@ == initial(hrefs(images@), view_of(kept)),
    {
        let builder = Builder {
            spans: Vec::new(),
            code: String::new(),
            code_language: None,
            code_lines: Vec::new(),
            strong: false,
            emphasis: false,
            strikethrough: false,
            metadata: false,
            code_block: false,
            link: None,
            image: None,
            image_start: None,
            stack: Vec::new(),
            highlighter: None,
            kept,
            broken: Vec::new(),
            cut: None,
            images,
        };
        proof {
            assert(builder@.spans =~= Seq::empty());
            assert(builder@.code_lines =~= Seq::empty());
            assert(builder@.stack =~= Seq::empty());
            assert(builder@.broken =~= Set::empty());
        }
        builder
    }

    fn emit(&mut self, item: Item, start: usize, end: usize) -> (produced: Option<Produced>)
        requires
            old(self).wf(),
        ensures
            final(self).wf(),
            (final(self)@, produced_view(produced)) == emit(
                old(self)@,
                item_view(item),
                start,
                end,
            ),
    {
        match self.stack.pop() {
            Some(scope) => {
                self.stack.push(scope_put(scope, item));
                assert(stack_view(self.stack@) =~= replace_top(
                    stack_view(old(self).stack@),
                    scope_with(stack_view(old(self).stack@).last(), item_view(item)),
                ));
                None
            },
            None => {
                let mut broken: Vec<String> = Vec::new();
                std::mem::swap(&mut self.broken, &mut broken);
                self.cut = Some(start);
                assert(label_set(self.broken@) =~= Set::empty());
                Some(Produced { item, start, end, broken })
            },
        }
    }

    fn take_spans(&mut self) -> (spans: Vec<Span>)
        requires
            old(self).wf(),
        ensures
            final(self).wf(),
            spans_view(spans@) == old(self)@.spans,
            final(self)@ == (BuilderView { spans: Seq::empty(), ..old(self)@ }),
    {
        let mut spans: Vec<Span> = Vec::new();
        std::mem::swap(&mut self.spans, &mut spans);
        assert(spans_view(self.spans@) =~= Seq::empty());
        spans
    }

    fn flush(&mut self, start: usize, end: usize) -> (produced: Option<Produced>)
        requires
            old(self).wf(),
        ensures
            final(self).wf(),
            (final(self)@, produced_view(produced)) == flush(old(self)@, start, end),
    {
        if self.spans.len() == 0 {
            None
        } else {
            let spans = self.take_spans();
            self.emit(Item::Paragraph(Text { spans }), start, end)
        }
    }

    fn push_scope(&mut self, scope: Scope)
        requires
            old(self).wf(),
        ensures
            final(self).wf(),
            final(self)@ == (BuilderView {
                stack: old(self)@.stack.push(scope_view(scope)),
                ..old(self)@
            }),
    {
        self.stack.push(scope);
        assert(stack_view(self.stack@) =~= stack_view(old(self).stack@).push(scope_view(scope)));
    }

    fn pop_scope(&mut self) -> (scope: Option<Scope>)
        requires
            old(self).wf(),
        ensures
            final(self).wf(),
            match scope {
                Some(top) => {
                    &&& old(self)@.stack.len() > 0
                    &&& scope_view(top) == old(self)@.stack.last()
                    &&& final(self)@ == popped(old(self)@)
                },
                None => old(self)@.stack.len() == 0 && final(self)@ == old(self)@,
            },
    {
        let scope = self.stack.pop();
        assert(scope is Some ==> stack_view(self.stack@) =~= stack_view(
            old(self).stack@,
        ).drop_last());
        scope
    }

    fn push_span(&mut self, text: String, code: bool)
        requires
            old(self).wf(),
        ensures
            final(self).wf(),
            final(self)@ == (BuilderView {
                spans: old(self)@.spans.push(standard(old(self)@, text@, code)),
                ..old(self)@
            }),
    {
        let span = self.standard(text, code);
        self.spans.push(span);
        assert(spans_view(self.spans@) =~= spans_view(old(self).spans@).push(span@));
    }

    fn standard(&self, text: String, code: bool) -> (span: Span)
        ensures
            span@ == standard(self@, text@, code),
    {
        let link = match &self.link {
            Some(url) => Some(url.clone()),
            None => None,
        };
        Span::Standard {
            text,
            strikethrough: self.strikethrough,
            link,
            strong: self.strong,
            emphasis: self.emphasis,
            code,
        }
    }

    fn start_code_block(&mut self, info: String)
        requires
            old(self).wf(),
        ensures
            final(self).wf(),
            final(self)@ == (BuilderView {
                active: if info@.len() > 0 {
                    Some(highlighter_for(old(self)@.kept, info@))
                } else {
                    None
                },
                kept: None,
                code_block: true,
                code_language: if info@.len() > 0 {
                    Some(info@)
                } else {
                    None
                },
                ..old(self)@
            }),
    {
        let kept = self.kept.take();
        self.highlighter = if info.as_str().is_empty() {
            None
        } else {
            let reused = match kept {
                Some(highlighter) => {
                    if highlighter.is_for(info.as_str()) {
                        Some(highlighter)
                    } else {
                        None
                    }
                },
                None => None,
            };
            Some(
                match reused {
                    Some(mut highlighter) => {
                        highlighter.prepare();
                        highlighter
                    },
                    None => {
                        let token = to_string(&take_up_to(&to_chars(info.as_str()), ','));
                        Highlighter::new(token.as_str())
                    },
                },
            )
        };
        self.code_block = true;
        self.code_language = if info.as_str().is_empty() {
            None
        } else {
            Some(info)
        };
    }

    fn open(&mut self, tag: Tag, start: usize, end: usize) -> (produced: Option<Produced>)
        requires
            old(self).wf(),
        ensures
            final(self).wf(),
            (final(self)@, produced_view(produced)) == opened(old(self)@, tag@, start, end),
    {
        match tag {
            Tag::Item => {
                match self.pop_scope() {
                    Some(Scope::List { start: first, mut bullets }) => {
                        let point = Bullet::Point { items: Vec::new() };
                        assert(items_view(point->Point_items) =~= Seq::empty());
                        push_bullet(&mut bullets, point);
                        self.push_scope(Scope::List { start: first, bullets });
                        assert(self@.stack =~= opened(old(self)@, tag@, start, end).0.stack);
                    },
                    Some(other) => {
                        self.push_scope(other);
                        assert(self@.stack =~= old(self)@.stack);
                    },
                    None => {},
                }
                None
            },
            Tag::MetadataBlock => {
                self.metadata = true;
                None
            },
            Tag::Table(alignment) => {
                let scope = Scope::Table {
                    alignment,
                    columns: Vec::new(),
                    rows: Vec::new(),
                    current: Vec::new(),
                };
                proof {
                    assert(columns_view(scope->columns) =~= Seq::empty());
                    assert(rows_view(scope->rows) =~= Seq::empty());
                    assert(items_view(scope->current) =~= Seq::empty());
                }
                self.push_scope(scope);
                None
            },
            Tag::TableHead => {
                self.strong = true;
                None
            },
            Tag::TableRow => {
                match self.pop_scope() {
                    Some(Scope::Table { alignment, columns, mut rows, current }) => {
                        let row = Row { cells: Vec::new() };
                        assert(cells_view(row.cells) =~= Seq::empty());
                        push_row(&mut rows, row);
                        self.push_scope(Scope::Table { alignment, columns, rows, current });
                        assert(self@.stack =~= opened(old(self)@, tag@, start, end).0.stack);
                    },
                    Some(other) => {
                        self.push_scope(other);
                        assert(self@.stack =~= old(self)@.stack);
                    },
                    None => {},
                }
                None
            },
            _ => {
                if self.metadata {
                    return None;
                }
                match tag {
                    Tag::Strong => {
                        self.strong = true;
                        None
                    },
                    Tag::Emphasis => {
                        self.emphasis = true;
                        None
                    },
                    Tag::Strikethrough => {
                        self.strikethrough = true;
                        None
                    },
                    Tag::Link { dest_url } => {
                        match parse_url(dest_url.as_str()) {
                            Some(url) => {
                                if is_one_of(&url.scheme, "http", "https", "https") {
                                    self.link = Some(url);
                                }
                            },
                            None => {},
                        }
                        None
                    },
                    Tag::Image { dest_url, title } => {
                        self.image_start = Some(self.spans.len());
                        match parse_url(dest_url.as_str()) {
                            Some(url) => {
                                if is_one_of(&url.scheme, "http", "https", "file") {
                                    self.image = Some((url, title));
                                }
                            },
                            None => {},
                        }
                        None
                    },
                    Tag::List(first) => {
                        let produced = self.flush(start, end);
                        let scope = Scope::List { start: first, bullets: Vec::new() };
                        assert(bullets_view(scope->bullets) =~= Seq::empty());
                        self.push_scope(scope);
                        produced
                    },
                    Tag::BlockQuote => {
                        let produced = self.flush(start, end);
                        let scope = Scope::Quote(Vec::new());
                        assert(items_view(scope->0) =~= Seq::empty());
                        self.push_scope(scope);
                        produced
                    },
                    Tag::CodeBlock(info) => {
                        self.start_code_block(info);
                        self.flush(start, end)
                    },
                    _ => None,
                }
            },
        }
    }
}

/// What a sequence of events does up to the first block of the top level that
/// leaves the builder, and that block; the events after it are not read.
pub open spec fn ran_first(b: BuilderView, events: Seq<SourcedView>, known: Map<Seq<char>, Seq<char>>) -> (
    BuilderView,
    Option<ProducedView>,
)
    decreases events.len(),
{
    if events.len() == 0 {
        (b, None)
    } else {
        let (after, produced) = stepped(b, events.first(), known);
        if produced is Some {
            (after, produced)
        } else {
            ran_first(after, events.drop_first(), known)
        }
    }
}

/// One more label looked up adds that label to the unresolved ones if it is
/// not defined.
proof fn lemma_unresolved_push(
    lookups: Seq<Seq<char>>,
    label: Seq<char>,
    known: Map<Seq<char>, Seq<char>>,
)
    ensures
        unresolved(lookups.push(label), known) == if known.contains_key(label) {
            unresolved(lookups, known)
        } else {
            unresolved(lookups, known).insert(label)
        },
{
    lemma_push_to_set(lookups, label);
    assert forall|l: Seq<char>| lookups.push(label).contains(l) <==> (lookups.contains(l) || l
        == label) by {
        assert(lookups.push(label).to_set().contains(l) == lookups.push(label).contains(l));
    }
    let wanted = if known.contains_key(label) {
        unresolved(lookups, known)
    } else {
        unresolved(lookups, known).insert(label)
    };
    assert forall|l: Seq<char>| unresolved(lookups.push(label), known).contains(l)
        <==> wanted.contains(l) by {
        assert(lookups.push(label).contains(l) <==> (lookups.contains(l) || l == label));
    }
}

impl Builder {
    /// Notes that the image at `url` was met.
    fn remember_image(&mut self, url: &Url)
        requires
            old(self).wf(),
            is_image_scheme(url.scheme@),
        ensures
            final(self).wf(),
            final(self)@ == (BuilderView {
                images: old(self)@.images.insert(url.href@),
                ..old(self)@
            }),
    {
        insert_url(&mut self.images, url.clone());
    }

    fn close(&mut self, tag: TagEnd, start: usize, end: usize) -> (produced: Option<Produced>)
        requires
            old(self).wf(),
        ensures
            final(self).wf(),
            (final(self)@, produced_view(produced)) == closed(old(self)@, tag, start, end),
    {
        match tag {
            TagEnd::MetadataBlock => {
                self.metadata = false;
                None
            },
            TagEnd::Table => {
                match self.pop_scope() {
                    Some(Scope::Table { columns, rows, .. }) => self.emit(
                        Item::Table { columns, rows },
                        start,
                        end,
                    ),
                    _ => None,
                }
            },
            TagEnd::TableHead => {
                self.strong = false;
                None
            },
            TagEnd::TableCell => {
                let _ = self.flush(start, end);
                match self.pop_scope() {
                    Some(scope) => {
                        let ghost before = self@.stack.push(scope_view(scope));
                        self.push_scope(close_cell(scope));
                        assert(self@.stack =~= replace_top(before, cell_closed(before.last())));
                        assert(before =~= flush(old(self)@, start, end).0.stack);
                    },
                    None => {},
                }
                None
            },
            _ => {
                if self.metadata {
                    return None;
                }
                match tag {
                    TagEnd::Heading(level) => {
                        let spans = self.take_spans();
                        self.emit(Item::Heading(level, Text { spans }), start, end)
                    },
                    TagEnd::Strong => {
                        self.strong = false;
                        None
                    },
                    TagEnd::Emphasis => {
                        self.emphasis = false;
                        None
                    },
                    TagEnd::Strikethrough => {
                        self.strikethrough = false;
                        None
                    },
                    TagEnd::Link => {
                        self.link = None;
                        None
                    },
                    TagEnd::Paragraph => self.flush(start, end),
                    TagEnd::Item => self.flush(start, end),
                    TagEnd::List => {
                        match self.pop_scope() {
                            Some(Scope::List { start: first, bullets }) => self.emit(
                                Item::List { start: first, bullets },
                                start,
                                end,
                            ),
                            _ => None,
                        }
                    },
                    TagEnd::BlockQuote => {
                        match self.pop_scope() {
                            Some(Scope::Quote(items)) => self.emit(Item::Quote(items), start, end),
                            _ => None,
                        }
                    },
                    TagEnd::Image => {
                        let image_start = self.image_start.take();
                        match self.image.take() {
                            Some((url, title)) => {
                                let spans = self.take_spans();
                                self.remember_image(&url);
                                self.emit(
                                    Item::Image { url, title, alt: Text { spans } },
                                    start,
                                    end,
                                )
                            },
                            None => {
                                match image_start {
                                    Some(n) => {
                                        if n <= self.spans.len() {
                                            self.spans.truncate(n);
                                            assert(spans_view(self.spans@) =~= spans_view(
                                                old(self).spans@,
                                            ).take(n as int));
                                        }
                                    },
                                    None => {},
                                }
                                None
                            },
                        }
                    },
                    TagEnd::CodeBlock => {
                        self.code_block = false;
                        self.kept = self.highlighter.take();
                        let language = self.code_language.take();
                        let mut code = String::new();
                        std::mem::swap(&mut self.code, &mut code);
                        let mut lines: Vec<Text> = Vec::new();
                        std::mem::swap(&mut self.code_lines, &mut lines);
                        assert(texts_view(self.code_lines@) =~= Seq::empty());
                        self.emit(Item::CodeBlock { language, code, lines }, start, end)
                    },
                    _ => None,
                }
            },
        }
    }

    /// Takes the lines of `text` as lines of the code block that is being
    /// read.
    fn code_lines(&mut self, text: &str)
        requires
            old(self).wf(),
        ensures
            final(self).wf(),
            final(self)@ == (BuilderView {
                code_lines: old(self)@.code_lines + Seq::new(
                    split_lines(text@).len(),
                    |i: int| code_line(old(self)@, split_lines(text@)[i]),
                ),
                active: match old(self)@.active {
                    Some(highlighter) => Some(after_lines(highlighter, split_lines(text@))),
                    None => None,
                },
                ..old(self)@
            }),
    {
        let all = lines(&to_chars(text));
        let ghost parts = split_lines(text@);
        let ghost before = self@;
        let mut i: usize = 0;
        assert(parts.take(0) =~= Seq::empty());
        while i < all.len()
            invariant
                i <= all.len(),
                all@.len() == parts.len(),
                forall|j: int| 0 <= j < all@.len() ==> (#[trigger] all@[j])@ == parts[j],
                self.wf(),
                self@ == (BuilderView {
                    code_lines: before.code_lines + Seq::new(
                        i as nat,
                        |j: int| code_line(before, parts[j]),
                    ),
                    active: match before.active {
                        Some(highlighter) => Some(after_lines(highlighter, parts.take(i as int))),
                        None => None,
                    },
                    ..before
                }),
            decreases all.len() - i,
        {
            let line = to_string(&all[i]);
            let ghost lines_before = self@.code_lines;
            proof {
                assert(parts.take(i + 1).drop_last() =~= parts.take(i as int));
                if before.active is Some {
                    lemma_after_lines_keeps_language(before.active->0, parts.take(i as int));
                }
            }
            let mut highlighter = self.highlighter.take();
            let spans = match &mut highlighter {
                Some(h) => h.highlight_line(line.as_str()),
                None => {
                    let mut spans: Vec<Span> = Vec::new();
                    let span = self.standard(line, false);
                    spans.push(span);
                    assert(spans_view(spans@) =~= seq![span@]);
                    spans
                },
            };
            self.highlighter = highlighter;
            let styled = Text { spans };
            self.code_lines.push(styled);
            proof {
                assert(texts_view(self.code_lines@) =~= lines_before.push(styled@));
                assert(lines_before.push(styled@) =~= before.code_lines + Seq::new(
                    (i + 1) as nat,
                    |j: int| code_line(before, parts[j]),
                ));
            }
            i += 1;
        }
        assert(parts.take(all.len() as int) =~= parts);
    }

    fn text(&mut self, text: String)
        requires
            old(self).wf(),
        ensures
            final(self).wf(),
            final(self)@ == with_text(old(self)@, text@),
    {
        if self.code_block {
            self.code.append(text.as_str());
            self.code_lines(text.as_str());
            assert(self@.code_lines =~= with_text(old(self)@, text@).code_lines);
        } else {
            self.push_span(text, false);
        }
    }

    fn task_marker(&mut self, done: bool)
        requires
            old(self).wf(),
        ensures
            final(self).wf(),
            final(self)@ == with_task_marker(old(self)@, done),
    {
        match self.pop_scope() {
            Some(Scope::List { start, mut bullets }) => {
                let ghost before = bullets_view(bullets);
                match pop_bullet(&mut bullets) {
                    Some(Bullet::Point { items }) => {
                        push_bullet(&mut bullets, Bullet::Task { items, done });
                        assert(bullets_view(bullets) =~= before.update(
                            before.len() - 1,
                            BulletView::Task { items: items_view(items), done },
                        ));
                    },
                    Some(other) => {
                        push_bullet(&mut bullets, other);
                        assert(bullets_view(bullets) =~= before);
                    },
                    None => {},
                }
                self.push_scope(Scope::List { start, bullets });
                assert(self@.stack =~= with_task_marker(old(self)@, done).stack);
            },
            Some(other) => {
                self.push_scope(other);
                assert(self@.stack =~= old(self)@.stack);
            },
            None => {},
        }
    }

    /// Notes the labels among `lookups` that `known` does not define.
    fn note_lookups(&mut self, lookups: &Vec<String>, known: &References)
        requires
            old(self).wf(),
        ensures
            final(self).wf(),
            final(self)@ == (BuilderView {
                broken: old(self)@.broken.union(unresolved(strings_view(lookups@), known@)),
                ..old(self)@
            }),
    {
        let ghost before = self@;
        let ghost labels = strings_view(lookups@);
        let mut i: usize = 0;
        assert(before.broken.union(unresolved(labels.take(0), known@)) =~= before.broken);
        while i < lookups.len()
            invariant
                i <= lookups.len(),
                labels == strings_view(lookups@),
                self.wf(),
                self@ == (BuilderView {
                    broken: before.broken.union(unresolved(labels.take(i as int), known@)),
                    ..before
                }),
            decreases lookups.len() - i,
        {
            proof {
                assert(labels.take(i + 1) =~= labels.take(i as int).push(labels[i as int]));
                lemma_unresolved_push(labels.take(i as int), labels[i as int], known@);
            }
            if !known.contains(lookups[i].as_str()) {
                let ghost strings = strings_view(self.broken@);
                self.broken.push(lookups[i].clone());
                proof {
                    lemma_push_to_set(strings, labels[i as int]);
                    assert(strings_view(self.broken@) =~= strings.push(labels[i as int]));
                    assert(self@.broken =~= before.broken.union(
                        unresolved(labels.take(i + 1), known@),
                    ));
                }
            }
            i += 1;
        }
        assert(labels.take(lookups.len() as int) =~= labels);
    }

    /// Takes one event of the scanner, which looked labels up in `known`, and
    /// gives the block of the top level that the event completes, if it does.
    pub fn step(&mut self, event: Sourced, known: &References) -> (produced: Option<Produced>)
        requires
            old(self).wf(),
        ensures
            final(self).wf(),
            (final(self)@, produced_view(produced)) == stepped(old(self)@, event@, known@),
    {
        self.note_lookups(&event.lookups, known);
        let start = event.start;
        let end = event.end;
        match event.signal {
            Signal::Start(tag) => self.open(tag, start, end),
            Signal::End(tag) => self.close(tag, start, end),
            Signal::Rule => self.emit(Item::Rule, start, end),
            Signal::TaskListMarker(done) => {
                self.task_marker(done);
                None
            },
            signal => {
                if self.metadata {
                    return None;
                }
                match signal {
                    Signal::Text(text) => {
                        self.text(text);
                        None
                    },
                    Signal::Code(text) => {
                        self.push_span(text, true);
                        None
                    },
                    Signal::SoftBreak => {
                        proof {
                            reveal_strlit(" ");
                            assert(" "@ =~= seq![' ']);
                        }
                        self.push_span(String::from_str(" "), false);
                        None
                    },
                    Signal::HardBreak => {
                        proof {
                            reveal_strlit("\n");
                            assert("\n"@ =~= seq!['\n']);
                        }
                        self.push_span(String::from_str("\n"), false);
                        None
                    },
                    _ => None,
                }
            },
        }
    }

    /// Takes the events of the scanner in order and gives the blocks of the
    /// top level that they complete, in order.
    pub fn run(&mut self, events: Vec<Sourced>, known: &References) -> (produced: Vec<Produced>)
        requires
            old(self).wf(),
        ensures
            final(self).wf(),
            (final(self)@, all_produced_view(produced@)) == ran(
                old(self)@,
                signals_view(events@),
                known@,
            ),
    {
        let ghost all = signals_view(events@);
        let ghost given = events@;
        let ghost before = self@;
        let mut produced: Vec<Produced> = Vec::new();
        for event in it: events
            invariant
                it.seq() == given,
                all == signals_view(given),
                self.wf(),
                (self@, all_produced_view(produced@)) == ran(
                    before,
                    all.take(it.index() as int),
                    known@,
                ),
        {
            let ghost i = it.index() as int;
            proof {
                assert(all.take(i + 1).drop_last() =~= all.take(i));
            }
            match self.step(event, known) {
                Some(block) => {
                    produced.push(block);
                },
                None => {},
            }
        }
        assert(all.take(all.len() as int) =~= all);
        produced
    }

    /// Takes the events of the scanner in order up to the first that completes
    /// a block of the top level, and gives that block.
    pub fn run_first(&mut self, events: Vec<Sourced>, known: &References) -> (produced: Option<
        Produced,
    >)
        requires
            old(self).wf(),
        ensures
            final(self).wf(),
            (final(self)@, produced_view(produced)) == ran_first(
                old(self)@,
                signals_view(events@),
                known@,
            ),
    {
        let ghost all = signals_view(events@);
        let ghost given = events@;
        let ghost before = self@;
        assert(all.skip(0) =~= all);
        for event in it: events
            invariant
                it.seq() == given,
                all == signals_view(given),
                given == events@,
                before == old(self)@,
                self.wf(),
                ran_first(before, all, known@) == ran_first(
                    self@,
                    all.skip(it.index() as int),
                    known@,
                ),
        {
            let ghost i = it.index() as int;
            proof {
                assert(all.skip(i).drop_first() =~= all.skip(i + 1));
            }
            let produced = self.step(event, known);
            if produced.is_some() {
                return produced;
            }
        }
        None
    }

    /// Where the last block of the top level begins in the source, the images
    /// met, and the highlighter to keep for the next code block.
    pub fn finish(self) -> (end: (Option<usize>, Vec<Url>, Option<Highlighter>))
        requires
            self.wf(),
        ensures
            end.0 == self@.cut,
            hrefs(end.1@) == self@.images,
            all_shown(end.1@),
            view_of(end.2) == self@.kept,
            ready(end.2),
    {
        (self.cut, self.images, self.kept)
    }
}

/// The values of a sequence of blocks that left the builder.
pub open spec fn all_produced_view(produced: Seq<Produced>) -> Seq<ProducedView> {
    Seq::new(produced.len(), |i: int| produced[i]@)
}

} // verus!
