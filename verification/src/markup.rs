//! HTML inside Markdown: how the parts of ruby text go together, and which
//! rows of a table are its head.

use vstd::prelude::*;

verus! {

/// How ruby text is shown.
#[derive(Clone, Copy, Debug, PartialEq, Eq, Structural)]
pub enum RubyMode {
    /// Only the base text is shown.
    Ignore,
    /// The annotations stand in the line behind their base text.
    Fallback,
    /// The annotations stand above their base text.
    Full,
}

/// A child of a ruby element, with what was rendered of it; `None` stands for
/// a child of which nothing is shown.
pub enum RubyChild<S> {
    /// An `rb` element.
    Base(Option<S>),
    /// An `rt` element.
    Annotation(S),
    /// An `rp` element.
    Parenthesis,
    /// Anything else, which is base text.
    Other(Option<S>),
}

/// A base text with the annotations that belong to it.
pub struct RubyUnit<S> {
    pub base: Option<S>,
    pub annotations: Vec<S>,
}

/// The value of a [`RubyUnit`].
pub struct RubyUnitView<S> {
    pub base: Option<S>,
    pub annotations: Seq<S>,
}

impl<S> View for RubyUnit<S> {
    type V = RubyUnitView<S>;

    open spec fn view(&self) -> RubyUnitView<S> {
        RubyUnitView { base: self.base, annotations: self.annotations@ }
    }
}

/// The values of a sequence of units.
pub open spec fn units_view<S>(units: Seq<RubyUnit<S>>) -> Seq<RubyUnitView<S>> {
    Seq::new(units.len(), |i: int| units[i]@)
}

/// The unit without base text and without annotations.
pub open spec fn empty_unit<S>() -> RubyUnitView<S> {
    RubyUnitView { base: None, annotations: Seq::empty() }
}

/// The units complete so far and the unit that is being read, after one more
/// child: a base text begins a unit, and completes the unit before it if that
/// has a base text; an annotation goes to the unit that is being read; a
/// parenthesis is dropped.
pub open spec fn with_child<S>(
    done: Seq<RubyUnitView<S>>,
    current: RubyUnitView<S>,
    child: RubyChild<S>,
) -> (Seq<RubyUnitView<S>>, RubyUnitView<S>) {
    match child {
        RubyChild::Annotation(span) => (
            done,
            RubyUnitView { annotations: current.annotations.push(span), ..current },
        ),
        RubyChild::Parenthesis => (done, current),
        RubyChild::Base(span) => if current.base is Some {
            (done.push(current), RubyUnitView { base: span, annotations: Seq::empty() })
        } else {
            (done, RubyUnitView { base: span, ..current })
        },
        RubyChild::Other(span) => if current.base is Some {
            (done.push(current), RubyUnitView { base: span, annotations: Seq::empty() })
        } else {
            (done, RubyUnitView { base: span, ..current })
        },
    }
}

/// The units complete and the unit being read after the first `upto`
/// children.
pub open spec fn collected<S>(children: Seq<RubyChild<S>>, upto: int) -> (
    Seq<RubyUnitView<S>>,
    RubyUnitView<S>,
)
    decreases upto,
{
    if upto <= 0 {
        (Seq::empty(), empty_unit())
    } else {
        let (done, current) = collected(children, upto - 1);
        with_child(done, current, children[upto - 1])
    }
}

/// The units of a ruby element with these children: the units that were
/// completed, and the last one if it has a base text.
pub open spec fn units_of<S>(children: Seq<RubyChild<S>>) -> Seq<RubyUnitView<S>> {
    let (done, current) = collected(children, children.len() as int);
    if current.base is Some {
        done.push(current)
    } else {
        done
    }
}

/// Groups the children of a ruby element into units of a base text and its
/// annotations.
pub fn ruby_collect_units<S>(children: Vec<RubyChild<S>>) -> (units: Vec<RubyUnit<S>>)
    ensures
        units_view(units@) == units_of(children@),
{
    let mut units: Vec<RubyUnit<S>> = Vec::new();
    let mut current: RubyUnit<S> = RubyUnit { base: None, annotations: Vec::new() };
    for child in it: children
        invariant
            it.seq() == children@,
            (units_view(units@), current@) == collected(children@, it.index() as int),
    {
        match child {
            RubyChild::Annotation(span) => {
                current.annotations.push(span);
            },
            RubyChild::Parenthesis => {},
            RubyChild::Base(span) => {
                if current.base.is_some() {
                    units.push(current);
                    current = RubyUnit { base: span, annotations: Vec::new() };
                } else {
                    current.base = span;
                }
            },
            RubyChild::Other(span) => {
                if current.base.is_some() {
                    units.push(current);
                    current = RubyUnit { base: span, annotations: Vec::new() };
                } else {
                    current.base = span;
                }
            },
        }
    }
    if current.base.is_some() {
        units.push(current);
    }
    units
}

/// A piece of ruby text as it is laid out.
pub enum RubyPiece<S> {
    /// A span in the line.
    Inline(S),
    /// The annotations in a line, centred above the base text.
    Stacked { annotations: Vec<S>, base: S },
}

/// The value of a [`RubyPiece`].
pub enum RubyPieceView<S> {
    Inline(S),
    Stacked { annotations: Seq<S>, base: S },
}

impl<S> View for RubyPiece<S> {
    type V = RubyPieceView<S>;

    open spec fn view(&self) -> RubyPieceView<S> {
        match *self {
            RubyPiece::Inline(span) => RubyPieceView::Inline(span),
            RubyPiece::Stacked { annotations, base } => RubyPieceView::Stacked {
                annotations: annotations@,
                base,
            },
        }
    }
}

/// The values of a sequence of pieces.
pub open spec fn pieces_view<S>(pieces: Seq<RubyPiece<S>>) -> Seq<RubyPieceView<S>> {
    Seq::new(pieces.len(), |i: int| pieces[i]@)
}

/// The pieces that one unit is laid out as: in the mode that ignores ruby its
/// base text; in the fallback mode its base text and then its annotations,
/// all in the line; in the full mode its annotations above its base text.
pub open spec fn unit_pieces<S>(unit: RubyUnitView<S>, mode: RubyMode) -> Seq<RubyPieceView<S>> {
    match unit.base {
        Some(base) => match mode {
            RubyMode::Ignore => seq![RubyPieceView::Inline(base)],
            RubyMode::Fallback => seq![RubyPieceView::Inline(base)] + Seq::new(
                unit.annotations.len(),
                |i: int| RubyPieceView::Inline(unit.annotations[i]),
            ),
            RubyMode::Full => seq![
                RubyPieceView::Stacked { annotations: unit.annotations, base },
            ],
        },
        None => Seq::empty(),
    }
}

/// The pieces that the first `upto` units are laid out as, in order.
pub open spec fn laid_out<S>(units: Seq<RubyUnitView<S>>, mode: RubyMode, upto: int) -> Seq<
    RubyPieceView<S>,
>
    decreases upto,
{
    if upto <= 0 {
        Seq::empty()
    } else {
        laid_out(units, mode, upto - 1) + unit_pieces(units[upto - 1], mode)
    }
}

/// Lays out the units of a ruby element in `mode`.
pub fn ruby_layout<S>(units: Vec<RubyUnit<S>>, mode: RubyMode) -> (pieces: Vec<RubyPiece<S>>)
    ensures
        pieces_view(pieces@) == laid_out(units_view(units@), mode, units@.len() as int),
{
    let ghost all = units_view(units@);
    let mut pieces: Vec<RubyPiece<S>> = Vec::new();
    for unit in it: units
        invariant
            it.seq() == units@,
            all == units_view(units@),
            pieces_view(pieces@) == laid_out(all, mode, it.index() as int),
    {
        match unit.base {
            Some(base) => match mode {
                RubyMode::Ignore => {
                    pieces.push(RubyPiece::Inline(base));
                },
                RubyMode::Fallback => {
                    pieces.push(RubyPiece::Inline(base));
                    let ghost with_base = pieces_view(pieces@);
                    let ghost notes = unit.annotations@;
                    for note in at: unit.annotations
                        invariant
                            at.seq() == notes,
                            pieces_view(pieces@) == with_base + Seq::new(
                                at.index() as nat,
                                |i: int| RubyPieceView::Inline(notes[i]),
                            ),
                    {
                        let ghost so_far = pieces_view(pieces@);
                        pieces.push(RubyPiece::Inline(note));
                        assert(pieces_view(pieces@) =~= so_far.push(RubyPieceView::Inline(note)));
                    }
                },
                RubyMode::Full => {
                    pieces.push(RubyPiece::Stacked { annotations: unit.annotations, base });
                },
            },
            None => {},
        }
    }
    pieces
}

/// Where a column holds its content, if not at the start.
#[derive(Clone, Copy, Debug, PartialEq, Eq, Structural)]
pub enum ChildAlignment {
    Center,
    Right,
}

/// The alignment that the attribute `align` of a header cell asks for:
/// `right`, `center` or `centre`; any other value and no value leave the
/// column at the start.
pub open spec fn alignment_of(align: Option<Seq<char>>) -> Option<ChildAlignment> {
    match align {
        Some(value) => if value == "right"@ {
            Some(ChildAlignment::Right)
        } else if value == "center"@ || value == "centre"@ {
            Some(ChildAlignment::Center)
        } else {
            None
        },
        None => None,
    }
}

/// The alignment that the attribute `align` of a header cell asks for.
pub fn header_alignment(align: Option<&str>) -> (alignment: Option<ChildAlignment>)
    ensures
        alignment == alignment_of(
            match align {
                Some(value) => Some(value@),
                None => None,
            },
        ),
{
    match align {
        Some(value) => {
            let value = value.to_owned();
            if value == "right".to_owned() {
                Some(ChildAlignment::Right)
            } else if value == "center".to_owned() || value == "centre".to_owned() {
                Some(ChildAlignment::Center)
            } else {
                None
            }
        },
        None => None,
    }
}

/// Whether a row is the head of its table: it stands in a `thead` element, or
/// it is the first row of the table.
pub fn is_header_row(section: &str, has_header: bool, has_body: bool) -> (header: bool)
    ensures
        header == (section@ == "thead"@ || (!has_header && !has_body)),
{
    section.to_owned() == "thead".to_owned() || (!has_header && !has_body)
}

/// The alignment of cell number `index` of a row: that of the column of that
/// number, and the start where the head has no such column.
pub fn cell_alignment(columns: &Vec<Option<ChildAlignment>>, index: usize) -> (alignment: Option<
    ChildAlignment,
>)
    ensures
        alignment == if index < columns@.len() {
            columns@[index as int]
        } else {
            None
        },
{
    if index < columns.len() {
        columns[index]
    } else {
        None
    }
}

} // verus!
