//! Syntax highlighting of the lines of a code block, with a cache of the
//! lines that were highlighted last.

use vstd::prelude::*;
use crate::markdown::model::{clone_spans, spans_view, Face, Rgba, Span, SpanView};

verus! {

/// The spans that the highlighter makes of one line of code in the language
/// that `token` names.
pub uninterp spec fn highlighted(token: Seq<char>, line: Seq<char>) -> Seq<SpanView>;

/// Makes an `iced_highlighter::Stream` for `token` with the theme
/// `Base16Ocean` and has it highlight `line`. Each range that the stream
/// yields becomes a span with the text of that range, the colour of
/// `Highlight::color` with eight bits per channel, and of `Highlight::font`
/// whether it is bold and whether it is italic.
#[verifier::external_body]
fn highlight(token: &str, line: &str) -> (spans: Vec<Span>)
    ensures
        spans_view(spans@) == highlighted(token@, line@),
{
    let theme = iced_highlighter::Theme::Base16Ocean;
    let settings = iced_highlighter::Settings { theme, token: token.to_owned() };
    let mut stream = iced_highlighter::Stream::new(&settings);
    let spans = stream.highlight_line(line).map(|(range, highlight)| Span::Highlight {
        text: line[range].to_owned(),
        color: highlight.color().map(|c| c.into_rgba8()).map(|[r, g, b, a]| Rgba { r, g, b, a }),
        font: highlight.font().map(|f| Face {
            bold: matches!(f.weight, iced_core::font::Weight::Bold),
            italic: matches!(f.style, iced_core::font::Style::Italic),
        }),
    });
    spans.collect()
}

/// A line of code with the spans it was highlighted to.
struct CachedLine {
    text: String,
    spans: Vec<Span>,
}

/// A highlighter for one language. It remembers the lines of the code block
/// it highlighted last, so that a block which is highlighted again, as
/// happens whenever text is added below it, costs only the lines that
/// changed.
pub struct Highlighter {
    lines: Vec<CachedLine>,
    language: String,
    current: usize,
}

/// The value of a [`Highlighter`].
pub struct HighlighterView {
    /// The language that the highlighter was made for.
    pub language: Seq<char>,
    /// The lines that are remembered, in the order of the block.
    pub remembered: Seq<Seq<char>>,
    /// How many lines of the block were highlighted since the block began.
    pub position: nat,
}

impl View for Highlighter {
    type V = HighlighterView;

    closed spec fn view(&self) -> HighlighterView {
        HighlighterView {
            language: self.language@,
            remembered: Seq::new(self.lines@.len(), |i: int| self.lines@[i].text@),
            position: self.current as nat,
        }
    }
}

/// A highlighter for `language` that remembers no line.
pub open spec fn fresh(language: Seq<char>) -> HighlighterView {
    HighlighterView { language, remembered: Seq::empty(), position: 0 }
}

/// The highlighter back at the first line of the block, with the lines it
/// remembers.
pub open spec fn prepared(h: HighlighterView) -> HighlighterView {
    HighlighterView { position: 0, ..h }
}

/// The highlighter after the next line of the block, which reads `line`: a
/// line that reads as it is remembered leaves the remembered lines as they
/// are; another line takes the place of the remembered one, and the lines
/// remembered below it are forgotten.
pub open spec fn after_line(h: HighlighterView, line: Seq<char>) -> HighlighterView {
    HighlighterView {
        language: h.language,
        remembered: if h.position < h.remembered.len() && h.remembered[h.position as int]
            == line {
            h.remembered
        } else {
            h.remembered.take(h.position as int).push(line)
        },
        position: h.position + 1,
    }
}

/// The highlighter after these lines of the block, in order.
pub open spec fn after_lines(h: HighlighterView, lines: Seq<Seq<char>>) -> HighlighterView
    decreases lines.len(),
{
    if lines.len() == 0 {
        h
    } else {
        after_line(after_lines(h, lines.drop_last()), lines.last())
    }
}

/// Lines of a block leave the language of the highlighter as it is.
pub proof fn lemma_after_lines_keeps_language(h: HighlighterView, lines: Seq<Seq<char>>)
    ensures
        after_lines(h, lines).language == h.language,
    decreases lines.len(),
{
    if lines.len() > 0 {
        lemma_after_lines_keeps_language(h, lines.drop_last());
    }
}

impl Highlighter {
    /// Every remembered line is remembered with the spans that highlighting
    /// gives it, and the position is within the remembered lines or just
    /// behind them.
    pub closed spec fn wf(&self) -> bool {
        &&& self.current <= self.lines.len()
        &&& forall|i: int|
            0 <= i < self.lines.len() ==> spans_view((#[trigger] self.lines[i]).spans@)
                == highlighted(self.language@, self.lines[i].text@)
    }

    /// A highlighter for `language` that remembers no line.
    pub fn new(language: &str) -> (highlighter: Self)
        ensures
            highlighter.wf(),
            highlighter@ == fresh(language@),
    {
        let highlighter = Highlighter {
            lines: Vec::new(),
            language: language.to_owned(),
            current: 0,
        };
        assert(highlighter@.remembered =~= Seq::empty());
        highlighter
    }

    /// Whether this highlighter was made for `language`.
    pub fn is_for(&self, language: &str) -> (same: bool)
        ensures
            same == (self@.language == language@),
    {
        self.language == language.to_owned()
    }

    /// How many lines are remembered.
    pub fn remembered_lines(&self) -> (count: usize)
        ensures
            count == self@.remembered.len(),
    {
        self.lines.len()
    }

    /// Goes back to the first line of the block.
    pub fn prepare(&mut self)
        requires
            old(self).wf(),
        ensures
            final(self).wf(),
            final(self)@ == prepared(old(self)@),
    {
        self.current = 0;
    }

    /// The spans of the next line of the block, which reads `text`. A line
    /// that reads as it did the last time is not highlighted again; a line
    /// that changed is, and the lines that were remembered below it are
    /// forgotten. Of the spans the cache changes nothing: they are what
    /// highlighting gives the line.
    pub fn highlight_line(&mut self, text: &str) -> (spans: Vec<Span>)
        requires
            old(self).wf(),
        ensures
            final(self).wf(),
            final(self)@ == after_line(old(self)@, text@),
            spans_view(spans@) == highlighted(old(self)@.language, text@),
    {
        let hit = self.current < self.lines.len() && self.lines[self.current].text == text.to_owned();
        if !hit {
            if self.current < self.lines.len() {
                self.lines.truncate(self.current);
            }
            let spans = highlight(self.language.as_str(), text);
            self.lines.push(CachedLine { text: text.to_owned(), spans });
            assert(self@.remembered =~= old(self)@.remembered.take(old(self)@.position as int).push(
                text@,
            ));
        }
        assert(self.current < self.lines.len());
        let spans = clone_spans(&self.lines[self.current].spans);
        self.current += 1;
        spans
    }
}

/// The value of the highlighter that may be there.
pub open spec fn view_of(highlighter: Option<Highlighter>) -> Option<HighlighterView> {
    match highlighter {
        Some(h) => Some(h@),
        None => None,
    }
}

/// Whether the highlighter that may be there is sound.
pub open spec fn ready(highlighter: Option<Highlighter>) -> bool {
    match highlighter {
        Some(h) => h.wf(),
        None => true,
    }
}

} // verus!
