//! Parsing a whole text, and parsing a text that grows.

use vstd::prelude::*;
use vstd::string::StringExecFns;
use crate::markdown::builder::{
    all_produced_view, all_shown, initial, label_set, produced_view, ran, ran_first, Builder, BuilderView,
    Produced, ProducedView,
};
use crate::markdown::events::{definitions, defined, scan, scanned};
use crate::markdown::highlighter::{ready, view_of, Highlighter, HighlighterView};
use crate::markdown::events::strings_view;
use crate::markdown::model::{hrefs, insert_url, item_view, items_view, Item, ItemView, Url};
use crate::markdown::references::References;
use crate::text::{
    byte_range, byte_slice, from_byte, lemma_push_to_set, slice, tail_from, to_chars, to_string,
    trailing_run, trim_end_index, trim_end_run_index, trimmed_end,
};

verus! {

/// What parsing keeps from one text to the next.
pub struct State {
    /// The end of the text parsed last, from the start of its last block on.
    pub leftover: String,
    /// The link reference definitions met so far.
    pub references: References,
    /// The images met so far, each URL once.
    pub images: Vec<Url>,
    /// The highlighter of the code block parsed last.
    pub highlighter: Option<Highlighter>,
}

/// The value of a [`State`].
pub struct StateView {
    pub leftover: Seq<char>,
    pub references: Map<Seq<char>, Seq<char>>,
    pub images: Set<Seq<char>>,
    /// The highlighter that is kept, with the lines it remembers.
    pub highlighter: Option<HighlighterView>,
}

impl View for State {
    type V = StateView;

    open spec fn view(&self) -> StateView {
        StateView {
            leftover: self.leftover@,
            references: self.references@,
            images: hrefs(self.images@),
            highlighter: view_of(self.highlighter),
        }
    }
}

/// The state before any text.
pub open spec fn empty_state() -> StateView {
    StateView {
        leftover: Seq::empty(),
        references: Map::empty(),
        images: Set::empty(),
        highlighter: None,
    }
}

/// The state after `text` was parsed and left the builder as `b`: what is
/// left over is the text from the start of its last block on, or what it was
/// where the text gave no block; the definitions of the text are known.
pub open spec fn state_after(state: StateView, text: Seq<char>, b: BuilderView) -> StateView {
    StateView {
        leftover: match b.cut {
            Some(at) => from_byte(text, at as int),
            None => state.leftover,
        },
        references: state.references.union_prefer_right(defined(text)),
        images: b.images,
        highlighter: b.kept,
    }
}

/// What parsing `text` in `state` gives: the state after it, and the blocks
/// of the top level in order.
pub open spec fn parsed_with(state: StateView, text: Seq<char>) -> (StateView, Seq<ProducedView>) {
    let (b, produced) = ran(
        initial(state.images, state.highlighter),
        scanned(text, state.references),
        state.references,
    );
    (state_after(state, text, b), produced)
}

/// What parsing `text` in `state` up to its first block gives.
pub open spec fn first_parsed_with(state: StateView, text: Seq<char>) -> (
    StateView,
    Option<ProducedView>,
) {
    let (b, produced) = ran_first(
        initial(state.images, state.highlighter),
        scanned(text, state.references),
        state.references,
    );
    (state_after(state, text, b), produced)
}

/// The blocks of `text`.
pub open spec fn parsed(text: Seq<char>) -> Seq<ItemView> {
    let produced = parsed_with(empty_state(), text).1;
    Seq::new(produced.len(), |i: int| produced[i].item)
}

/// Parsing is a function of the text: the same text has the same blocks.
pub proof fn lemma_parse_is_idempotent(first: Seq<char>, second: Seq<char>)
    requires
        first == second,
    ensures
        parsed(first) == parsed(second),
{
}

impl State {
    /// The highlighter that is kept is sound, and every image has a scheme
    /// that images are shown for.
    pub open spec fn wf(&self) -> bool {
        ready(self.highlighter) && all_shown(self.images@)
    }

    /// The state before any text.
    pub fn new() -> (state: Self)
        ensures
            state.wf(),
            state@ == empty_state(),
    {
        let state = State {
            leftover: String::new(),
            references: References::new(),
            images: Vec::new(),
            highlighter: None,
        };
        assert(state@.images =~= Set::empty());
        state
    }

    /// Hands what the state keeps for the builder to a builder.
    fn builder(&mut self) -> (builder: Builder)
        requires
            old(self).wf(),
        ensures
            builder.wf(),
            builder@ == initial(old(self)@.images, old(self)@.highlighter),
            final(self).references == old(self).references,
            final(self).leftover == old(self).leftover,
    {
        let mut images: Vec<Url> = Vec::new();
        std::mem::swap(&mut self.images, &mut images);
        let kept = self.highlighter.take();
        Builder::new(images, kept)
    }

    /// Takes back from the builder what it kept, and notes the definitions
    /// `found` in `text`.
    fn settle(&mut self, builder: Builder, text: &str)
        requires
            builder.wf(),
        ensures
            final(self).wf(),
            final(self)@ == state_after(old(self)@, text@, builder@),
    {
        let found = definitions(text);
        self.references.extend(&found);
        let (cut, images, kept) = builder.finish();
        self.images = images;
        self.highlighter = kept;
        match cut {
            Some(at) => {
                self.leftover = tail_from(text, at).to_owned();
            },
            None => {},
        }
    }
}

/// Parses `markdown` as what follows the text parsed before in `state`, and
/// gives its blocks with the place of each in `markdown`.
pub fn parse_with(state: &mut State, markdown: &str) -> (produced: Vec<Produced>)
    requires
        old(state).wf(),
    ensures
        final(state).wf(),
        (final(state)@, all_produced_view(produced@)) == parsed_with(old(state)@, markdown@),
{
    let events = scan(markdown, &state.references);
    let mut builder = state.builder();
    let produced = builder.run(events, &state.references);
    state.settle(builder, markdown);
    produced
}

/// Parses `markdown` as [`parse_with`] does, but only as far as its first
/// block.
pub fn parse_first_with(state: &mut State, markdown: &str) -> (produced: Option<Produced>)
    requires
        old(state).wf(),
    ensures
        final(state).wf(),
        (final(state)@, produced_view(produced)) == first_parsed_with(old(state)@, markdown@),
{
    let events = scan(markdown, &state.references);
    let mut builder = state.builder();
    let produced = builder.run_first(events, &state.references);
    state.settle(builder, markdown);
    produced
}

/// Parses `markdown` into its blocks.
pub fn parse(markdown: &str) -> (items: Vec<Item>)
    ensures
        items_view(items) == parsed(markdown@),
{
    let mut state = State::new();
    let produced = parse_with(&mut state, markdown);
    let ghost blocks = all_produced_view(produced@);
    let mut items: Vec<Item> = Vec::new();
    for block in it: produced
        invariant
            it.seq() == produced@,
            blocks == all_produced_view(produced@),
            items_view(items) == Seq::new(it.index() as nat, |i: int| blocks[i].item),
    {
        let ghost before = items_view(items);
        items.push(block.item);
        assert(items_view(items) =~= before.push(item_view(block.item)));
    }
    items
}

/// A block that cites labels without a definition: its source, and the labels
/// that are still undefined.
#[derive(Debug, PartialEq, Eq)]
pub struct Section {
    pub content: String,
    pub broken_links: Vec<String>,
}

/// The value of a [`Section`].
pub struct SectionView {
    pub content: Seq<char>,
    pub broken_links: Set<Seq<char>>,
}

impl View for Section {
    type V = SectionView;

    open spec fn view(&self) -> SectionView {
        SectionView { content: self.content@, broken_links: label_set(self.broken_links@) }
    }
}

/// A section with the position of its block.
struct Pending {
    index: usize,
    section: Section,
}

spec fn pending_view(pending: Seq<Pending>) -> Seq<(usize, SectionView)> {
    Seq::new(pending.len(), |i: int| (pending[i].index, pending[i].section@))
}

/// Markdown that was parsed piece by piece.
pub struct Content {
    items: Vec<Item>,
    incomplete: Vec<Pending>,
    state: State,
}

/// The value of a [`Content`].
pub struct ContentView {
    /// The blocks, in order.
    pub items: Seq<ItemView>,
    /// The blocks that cite undefined labels, each with its position.
    pub incomplete: Seq<(usize, SectionView)>,
    pub state: StateView,
}

impl View for Content {
    type V = ContentView;

    closed spec fn view(&self) -> ContentView {
        ContentView {
            items: items_view(self.items),
            incomplete: pending_view(self.incomplete@),
            state: self.state@,
        }
    }
}

/// How much of `text` is parsed now: all of it, unless a vertical bar is the
/// last character before the white space at its end, as in a table row that
/// is still being typed; then the text up to the bars that it ends with.
pub open spec fn input_len(text: Seq<char>) -> nat {
    let t = trimmed_end(text);
    if t.len() > 0 && t.last() == '|' {
        (t.len() - trailing_run(t, '|')) as nat
    } else {
        text.len()
    }
}

/// The first entry for the block at `index`.
pub open spec fn position_of(entries: Seq<(usize, SectionView)>, index: usize, from: int) -> Option<
    int,
>
    decreases entries.len() - from,
{
    if from < 0 || from >= entries.len() {
        None
    } else if entries[from].0 == index {
        Some(from)
    } else {
        position_of(entries, index, from + 1)
    }
}

/// The entries with `section` for the block at `index`, in place of an entry
/// that this block had.
pub open spec fn registered(entries: Seq<(usize, SectionView)>, index: usize, section: SectionView) -> Seq<
    (usize, SectionView),
> {
    match position_of(entries, index, 0) {
        Some(at) => entries.update(at, (index, section)),
        None => entries.push((index, section)),
    }
}

/// The blocks and entries after the blocks `produced` from `input` were added
/// in order: a block that cites undefined labels gets an entry with its
/// source.
pub open spec fn appended(
    items: Seq<ItemView>,
    entries: Seq<(usize, SectionView)>,
    produced: Seq<ProducedView>,
    input: Seq<char>,
) -> (Seq<ItemView>, Seq<(usize, SectionView)>)
    decreases produced.len(),
{
    if produced.len() == 0 {
        (items, entries)
    } else {
        let (before, noted) = appended(items, entries, produced.drop_last(), input);
        let block = produced.last();
        (
            before.push(block.item),
            if block.broken.is_empty() {
                noted
            } else {
                registered(
                    noted,
                    before.len() as usize,
                    SectionView {
                        content: byte_range(input, block.start as int, block.end as int),
                        broken_links: block.broken,
                    },
                )
            },
        )
    }
}

/// Whether `references` defines one of `labels`.
pub open spec fn some_resolved(labels: Set<Seq<char>>, references: Map<Seq<char>, Seq<char>>) -> bool {
    exists|label: Seq<char>| labels.contains(label) && references.contains_key(label)
}

/// The state in which a block is parsed again by itself: it knows the
/// definitions and nothing else.
pub open spec fn scratch_state(references: Map<Seq<char>, Seq<char>>) -> StateView {
    StateView { leftover: Seq::empty(), references, images: Set::empty(), highlighter: None }
}

/// The blocks, images and entries after every entry was looked at again, in
/// order. An entry past the end of the blocks goes. Where a label of an entry
/// has a definition by now, the source of the entry is parsed again by itself,
/// its first block takes the place of the block at the position of the entry,
/// and the images of that source are known. An entry stays, with the labels
/// that are still undefined, while there is such a label.
pub open spec fn revisited(
    items: Seq<ItemView>,
    images: Set<Seq<char>>,
    references: Map<Seq<char>, Seq<char>>,
    entries: Seq<(usize, SectionView)>,
) -> (Seq<ItemView>, Set<Seq<char>>, Seq<(usize, SectionView)>)
    decreases entries.len(),
{
    if entries.len() == 0 {
        (items, images, Seq::empty())
    } else {
        let (before, known, kept) = revisited(items, images, references, entries.drop_last());
        let (index, section) = entries.last();
        if before.len() <= index {
            (before, known, kept)
        } else {
            let remaining = section.broken_links.filter(
                |label: Seq<char>| !references.contains_key(label),
            );
            let again = first_parsed_with(scratch_state(references), section.content);
            let resolved = some_resolved(section.broken_links, references);
            (
                if resolved && again.1 is Some {
                    before.update(index as int, again.1->0.item)
                } else {
                    before
                },
                if resolved {
                    known.union(again.0.images)
                } else {
                    known
                },
                if remaining.is_empty() {
                    kept
                } else {
                    kept.push((index, SectionView { content: section.content, broken_links: remaining }))
                },
            )
        }
    }
}

/// The blocks without the last.
pub open spec fn without_last(items: Seq<ItemView>) -> Seq<ItemView> {
    if items.len() > 0 {
        items.drop_last()
    } else {
        items
    }
}

/// The content after `markdown` was added. Nothing changes for an empty
/// addition. Otherwise the text left over and the addition are parsed
/// together, as far as [`input_len`] says, in place of the last block; what
/// was not parsed is left over behind the last block parsed; then every entry
/// is looked at again.
pub open spec fn pushed(c: ContentView, markdown: Seq<char>) -> ContentView {
    if markdown.len() == 0 {
        c
    } else {
        let text = c.state.leftover + markdown;
        let input = text.take(input_len(text) as int);
        let (parsed_state, produced) = parsed_with(
            StateView { leftover: Seq::empty(), ..c.state },
            input,
        );
        let (items, entries) = appended(without_last(c.items), c.incomplete, produced, input);
        let state = StateView {
            leftover: parsed_state.leftover + text.skip(input_len(text) as int),
            ..parsed_state
        };
        let (revised, images, kept) = revisited(items, state.images, state.references, entries);
        ContentView { items: revised, incomplete: kept, state: StateView { images, ..state } }
    }
}

/// Whether no entry is for the block at `index`.
pub open spec fn is_settled(entries: Seq<(usize, SectionView)>, index: int) -> bool {
    forall|k: int| 0 <= k < entries.len() ==> (#[trigger] entries[k]).0 != index
}

/// Noting a section for a block changes no entry of another block.
proof fn lemma_registered_keeps_settled(
    entries: Seq<(usize, SectionView)>,
    index: usize,
    section: SectionView,
    other: int,
)
    requires
        is_settled(entries, other),
        index != other,
    ensures
        is_settled(registered(entries, index, section), other),
{
    let after = registered(entries, index, section);
    assert forall|k: int| 0 <= k < after.len() implies (#[trigger] after[k]).0 != other by {
        lemma_position_is_within(entries, index, 0);
    }
}

proof fn lemma_position_is_within(entries: Seq<(usize, SectionView)>, index: usize, from: int)
    requires
        0 <= from,
    ensures
        position_of(entries, index, from) matches Some(at) ==> from <= at < entries.len(),
    decreases entries.len() - from,
{
    if from < entries.len() && entries[from].0 != index {
        lemma_position_is_within(entries, index, from + 1);
    }
}

/// Adding blocks leaves the blocks that were there as they are, and notes
/// sections only for the blocks that are added.
proof fn lemma_appended_keeps_blocks(
    items: Seq<ItemView>,
    entries: Seq<(usize, SectionView)>,
    produced: Seq<ProducedView>,
    input: Seq<char>,
    index: int,
)
    requires
        0 <= index < items.len(),
        items.len() + produced.len() <= usize::MAX,
        is_settled(entries, index),
    ensures
        appended(items, entries, produced, input).0.len() == items.len() + produced.len(),
        appended(items, entries, produced, input).0[index] == items[index],
        is_settled(appended(items, entries, produced, input).1, index),
    decreases produced.len(),
{
    if produced.len() > 0 {
        lemma_appended_keeps_blocks(items, entries, produced.drop_last(), input, index);
        let (before, noted) = appended(items, entries, produced.drop_last(), input);
        let block = produced.last();
        if !block.broken.is_empty() {
            lemma_registered_keeps_settled(
                noted,
                before.len() as usize,
                SectionView {
                    content: byte_range(input, block.start as int, block.end as int),
                    broken_links: block.broken,
                },
                index,
            );
        }
    }
}

/// Looking at the entries again keeps the number of blocks, and changes no
/// block without an entry.
proof fn lemma_revisited_keeps_blocks(
    items: Seq<ItemView>,
    images: Set<Seq<char>>,
    references: Map<Seq<char>, Seq<char>>,
    entries: Seq<(usize, SectionView)>,
    index: int,
)
    requires
        0 <= index < items.len(),
        is_settled(entries, index),
    ensures
        revisited(items, images, references, entries).0.len() == items.len(),
        revisited(items, images, references, entries).0[index] == items[index],
    decreases entries.len(),
{
    if entries.len() > 0 {
        assert(is_settled(entries.drop_last(), index));
        lemma_revisited_keeps_blocks(items, images, references, entries.drop_last(), index);
    }
}

/// Only the last block and the blocks that cite undefined labels are open to
/// change: a push leaves every other block as it is, in its place.
pub proof fn lemma_push_keeps_settled_blocks(c: ContentView, markdown: Seq<char>, index: int)
    requires
        0 <= index < c.items.len() - 1,
        is_settled(c.incomplete, index),
        c.items.len() + parsed_with(
            StateView { leftover: Seq::empty(), ..c.state },
            (c.state.leftover + markdown).take(input_len(c.state.leftover + markdown) as int),
        ).1.len() <= usize::MAX,
    ensures
        index < pushed(c, markdown).items.len(),
        pushed(c, markdown).items[index] == c.items[index],
{
    if markdown.len() > 0 {
        let text = c.state.leftover + markdown;
        let input = text.take(input_len(text) as int);
        let (parsed_state, produced) = parsed_with(
            StateView { leftover: Seq::empty(), ..c.state },
            input,
        );
        lemma_appended_keeps_blocks(
            without_last(c.items),
            c.incomplete,
            produced,
            input,
            index,
        );
        let (items, entries) = appended(without_last(c.items), c.incomplete, produced, input);
        let state = StateView {
            leftover: parsed_state.leftover + text.skip(input_len(text) as int),
            ..parsed_state
        };
        lemma_revisited_keeps_blocks(items, state.images, state.references, entries, index);
    }
}

/// Blocks that cite no undefined label are added as they are, and no section
/// is noted for them.
proof fn lemma_appended_without_broken(
    items: Seq<ItemView>,
    entries: Seq<(usize, SectionView)>,
    produced: Seq<ProducedView>,
    input: Seq<char>,
)
    requires
        forall|i: int| 0 <= i < produced.len() ==> (#[trigger] produced[i]).broken.is_empty(),
    ensures
        appended(items, entries, produced, input) == (
            items + Seq::new(produced.len(), |i: int| produced[i].item),
            entries,
        ),
    decreases produced.len(),
{
    if produced.len() == 0 {
        assert(items + Seq::new(produced.len(), |i: int| produced[i].item) =~= items);
    } else {
        let before = produced.drop_last();
        assert forall|i: int| 0 <= i < before.len() implies (#[trigger] before[i]).broken.is_empty() by {
            assert(before[i] == produced[i]);
        }
        lemma_appended_without_broken(items, entries, before, input);
        assert(produced.last() == produced[produced.len() - 1]);
        assert((items + Seq::new(before.len(), |i: int| before[i].item)).push(
            produced.last().item,
        ) =~= items + Seq::new(produced.len(), |i: int| produced[i].item));
    }
}

/// A text that is pushed in one piece has the blocks of the whole text,
/// where all of it is parsed at once and none of its blocks cites an
/// undefined label.
pub proof fn lemma_first_push_is_parse(text: Seq<char>)
    requires
        text.len() > 0,
        input_len(text) == text.len(),
        forall|i: int|
            0 <= i < parsed_with(empty_state(), text).1.len() ==> (#[trigger] parsed_with(
                empty_state(),
                text,
            ).1[i]).broken.is_empty(),
    ensures
        pushed(empty_content(), text).items == parsed(text),
{
    let c = empty_content();
    let whole = c.state.leftover + text;
    assert(whole =~= text);
    let input = whole.take(input_len(whole) as int);
    assert(input =~= text);
    let start = StateView { leftover: Seq::empty(), ..c.state };
    assert(start == empty_state());
    let produced = parsed_with(start, input).1;
    lemma_appended_without_broken(without_last(c.items), c.incomplete, produced, input);
    assert(without_last(c.items) + Seq::new(produced.len(), |i: int| produced[i].item) =~= parsed(
        text,
    ));
}

/// Adding nothing changes nothing: neither the blocks nor what is left over.
pub proof fn lemma_push_nothing(c: ContentView)
    ensures
        pushed(c, Seq::empty()) == c,
{
}

/// The content of no text.
pub open spec fn empty_content() -> ContentView {
    ContentView { items: Seq::empty(), incomplete: Seq::empty(), state: empty_state() }
}

/// A sequence of strings has no string exactly when its set is empty.
proof fn lemma_label_set_empty(labels: Seq<String>)
    ensures
        (labels.len() == 0) == label_set(labels).is_empty(),
{
    let strings = strings_view(labels);
    if labels.len() > 0 {
        assert(strings.to_set().contains(strings[0]));
    }
}

/// How much of `chars` is parsed now.
fn input_length(chars: &Vec<char>) -> (len: usize)
    ensures
        len == input_len(chars@),
        len <= chars.len(),
{
    assert(chars@.take(chars.len() as int) =~= chars@);
    let trimmed = trim_end_index(chars, chars.len());
    if trimmed > 0 && chars[trimmed - 1] == '|' {
        trim_end_run_index(chars, trimmed, '|')
    } else {
        chars.len()
    }
}

/// The labels among `labels` that `references` does not define, and whether
/// it defines one of them.
fn still_broken(labels: Vec<String>, references: &References) -> (r: (Vec<String>, bool))
    ensures
        label_set(r.0@) == label_set(labels@).filter(
            |label: Seq<char>| !references@.contains_key(label),
        ),
        r.1 == some_resolved(label_set(labels@), references@),
{
    let ghost all = strings_view(labels@);
    let ghost undefined = |label: Seq<char>| !references@.contains_key(label);
    let mut remaining: Vec<String> = Vec::new();
    let mut resolved = false;
    for label in it: labels
        invariant
            it.seq() == labels@,
            all == strings_view(labels@),
            undefined == |label: Seq<char>| !references@.contains_key(label),
            label_set(remaining@) == all.take(it.index() as int).to_set().filter(undefined),
            resolved == some_resolved(all.take(it.index() as int).to_set(), references@),
    {
        let ghost i = it.index() as int;
        let ghost kept = strings_view(remaining@);
        proof {
            assert(all.take(i + 1) =~= all.take(i).push(label@));
            lemma_push_to_set(all.take(i), label@);
        }
        if references.contains(label.as_str()) {
            resolved = true;
            assert(all.take(i + 1).to_set().contains(label@));
        } else {
            remaining.push(label);
            proof {
                lemma_push_to_set(kept, label@);
                assert(strings_view(remaining@) =~= kept.push(label@));
                if some_resolved(all.take(i + 1).to_set(), references@) {
                    let l = choose|l: Seq<char>|
                        all.take(i + 1).to_set().contains(l) && references@.contains_key(l);
                }
                if some_resolved(all.take(i).to_set(), references@) {
                    let l = choose|l: Seq<char>|
                        all.take(i).to_set().contains(l) && references@.contains_key(l);
                    assert(all.take(i + 1).to_set().contains(l));
                }
            }
        }
    }
    assert(all.take(all.len() as int) =~= all);
    (remaining, resolved)
}

impl Content {
    /// The highlighter that the content keeps is sound.
    pub closed spec fn wf(&self) -> bool {
        self.state.wf()
    }

    /// The content of no text.
    pub fn new() -> (content: Self)
        ensures
            content.wf(),
            content@ == empty_content(),
    {
        let content = Content { items: Vec::new(), incomplete: Vec::new(), state: State::new() };
        proof {
            assert(content@.items =~= Seq::empty());
            assert(content@.incomplete =~= Seq::empty());
        }
        content
    }

    /// The content of `markdown`.
    pub fn parse(markdown: &str) -> (content: Self)
        ensures
            content.wf(),
            content@ == pushed(empty_content(), markdown@),
    {
        let mut content = Content::new();
        content.push_str(markdown);
        content
    }

    /// Notes `section` for the block at `index`.
    fn register(&mut self, index: usize, section: Section)
        ensures
            final(self).items == old(self).items,
            final(self).state == old(self).state,
            pending_view(final(self).incomplete@) == registered(
                pending_view(old(self).incomplete@),
                index,
                section@,
            ),
    {
        let ghost entries = pending_view(self.incomplete@);
        let mut i: usize = 0;
        while i < self.incomplete.len()
            invariant
                i <= self.incomplete.len(),
                *self == *old(self),
                entries == pending_view(self.incomplete@),
                position_of(entries, index, 0) == position_of(entries, index, i as int),
            decreases self.incomplete.len() - i,
        {
            if self.incomplete[i].index == index {
                self.incomplete[i] = Pending { index, section };
                return ;
            }
            i += 1;
        }
        self.incomplete.push(Pending { index, section });
    }

    /// Adds the blocks `produced` from `input`.
    fn append(&mut self, produced: Vec<Produced>, input: &str)
        ensures
            final(self).state == old(self).state,
            (items_view(final(self).items), pending_view(final(self).incomplete@)) == appended(
                items_view(old(self).items),
                pending_view(old(self).incomplete@),
                all_produced_view(produced@),
                input@,
            ),
    {
        let ghost blocks = all_produced_view(produced@);
        let ghost items = items_view(self.items);
        let ghost entries = pending_view(self.incomplete@);
        for block in it: produced
            invariant
                it.seq() == produced@,
                blocks == all_produced_view(produced@),
                self.state == old(self).state,
                (items_view(self.items), pending_view(self.incomplete@)) == appended(
                    items,
                    entries,
                    blocks.take(it.index() as int),
                    input@,
                ),
        {
            let ghost i = it.index() as int;
            proof {
                assert(blocks.take(i + 1).drop_last() =~= blocks.take(i));
                lemma_label_set_empty(block.broken@);
            }
            if block.broken.len() > 0 {
                let content = byte_slice(input, block.start, block.end).to_owned();
                self.register(self.items.len(), Section { content, broken_links: block.broken });
            }
            self.items.push(block.item);
        }
        assert(blocks.take(blocks.len() as int) =~= blocks);
    }

    /// Looks at every entry again.
    fn revisit(&mut self)
        requires
            old(self).wf(),
        ensures
            final(self).wf(),
            final(self).state.leftover == old(self).state.leftover,
            final(self).state.references == old(self).state.references,
            view_of(final(self).state.highlighter) == view_of(old(self).state.highlighter),
            (
                items_view(final(self).items),
                hrefs(final(self).state.images@),
                pending_view(final(self).incomplete@),
            ) == revisited(
                items_view(old(self).items),
                hrefs(old(self).state.images@),
                old(self).state.references@,
                pending_view(old(self).incomplete@),
            ),
    {
        let mut entries: Vec<Pending> = Vec::new();
        std::mem::swap(&mut self.incomplete, &mut entries);
        let ghost all = pending_view(entries@);
        let ghost items = items_view(self.items);
        let ghost images = hrefs(self.state.images@);
        let ghost references = self.state.references@;
        for entry in it: entries
            invariant
                it.seq() == entries@,
                all == pending_view(entries@),
                self.wf(),
                self.state.leftover == old(self).state.leftover,
                self.state.references == old(self).state.references,
                references == self.state.references@,
                view_of(self.state.highlighter) == view_of(old(self).state.highlighter),
                (items_view(self.items), hrefs(self.state.images@), pending_view(self.incomplete@))
                    == revisited(items, images, references, all.take(it.index() as int)),
        {
            let ghost i = it.index() as int;
            proof {
                assert(all.take(i + 1).drop_last() =~= all.take(i));
            }
            if entry.index < self.items.len() {
                let index = entry.index;
                let content = entry.section.content;
                let (remaining, resolved) = still_broken(
                    entry.section.broken_links,
                    &self.state.references,
                );
                if resolved {
                    let mut scratch = State {
                        leftover: String::new(),
                        references: self.state.references.duplicate(),
                        images: Vec::new(),
                        highlighter: None,
                    };
                    assert(scratch@.images =~= Set::empty());
                    match parse_first_with(&mut scratch, content.as_str()) {
                        Some(block) => {
                            self.items[index] = block.item;
                        },
                        None => {},
                    }
                    self.add_images(scratch.images);
                }
                proof {
                    lemma_label_set_empty(remaining@);
                }
                if remaining.len() > 0 {
                    let pending = Pending {
                        index,
                        section: Section { content, broken_links: remaining },
                    };
                    self.incomplete.push(pending);
                }
            }
        }
        assert(all.take(all.len() as int) =~= all);
    }

    /// Notes that the images at `urls` were met.
    fn add_images(&mut self, urls: Vec<Url>)
        requires
            all_shown(old(self).state.images@),
            all_shown(urls@),
        ensures
            all_shown(final(self).state.images@),
            final(self).items == old(self).items,
            final(self).incomplete == old(self).incomplete,
            final(self).state.leftover == old(self).state.leftover,
            final(self).state.references == old(self).state.references,
            final(self).state.highlighter == old(self).state.highlighter,
            hrefs(final(self).state.images@) == hrefs(old(self).state.images@).union(hrefs(urls@)),
    {
        let ghost more = Seq::new(urls@.len(), |i: int| urls@[i].href@);
        let ghost known = hrefs(self.state.images@);
        for url in it: urls
            invariant
                it.seq() == urls@,
                more == Seq::new(urls@.len(), |i: int| urls@[i].href@),
                self.items == old(self).items,
                self.incomplete == old(self).incomplete,
                self.state.leftover == old(self).state.leftover,
                self.state.references == old(self).state.references,
                self.state.highlighter == old(self).state.highlighter,
                all_shown(self.state.images@),
                all_shown(urls@),
                hrefs(self.state.images@) == known.union(more.take(it.index() as int).to_set()),
        {
            let ghost i = it.index() as int;
            proof {
                assert(more.take(i + 1) =~= more.take(i).push(url.href@));
                lemma_push_to_set(more.take(i), url.href@);
            }
            insert_url(&mut self.state.images, url);
        }
        assert(more.take(more.len() as int) =~= more);
    }

    /// Adds `markdown` at the end of the text.
    pub fn push_str(&mut self, markdown: &str)
        requires
            old(self).wf(),
        ensures
            final(self).wf(),
            final(self)@ == pushed(old(self)@, markdown@),
    {
        if markdown.is_empty() {
            return ;
        }
        let mut text = String::new();
        std::mem::swap(&mut self.state.leftover, &mut text);
        text.append(markdown);
        let chars = to_chars(text.as_str());
        let cut = input_length(&chars);
        let input = to_string(&slice(&chars, 0, cut));
        let rest = to_string(&slice(&chars, cut, chars.len()));
        let ghost before = items_view(self.items);
        let _ = self.items.pop();
        proof {
            assert(items_view(self.items) =~= without_last(before));
        }
        let produced = parse_with(&mut self.state, input.as_str());
        self.append(produced, input.as_str());
        self.state.leftover.append(rest.as_str());
        self.revisit();
    }

    /// The blocks, in order.
    pub fn items(&self) -> (items: &Vec<Item>)
        ensures
            items_view(*items) == self@.items,
    {
        &self.items
    }

    /// How many blocks cite labels that are still undefined.
    pub fn incomplete_len(&self) -> (len: usize)
        ensures
            len == self@.incomplete.len(),
    {
        self.incomplete.len()
    }

    /// The URLs of the images met so far, each once; each has a scheme that
    /// images are shown for.
    pub fn images(&self) -> (images: &Vec<Url>)
        requires
            self.wf(),
        ensures
            hrefs(images@) == self@.state.images,
            all_shown(images@),
    {
        &self.state.images
    }
}

} // verus!
