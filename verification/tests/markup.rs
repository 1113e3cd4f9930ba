use cedilla::markup::{
    cell_alignment, header_alignment, is_header_row, ruby_collect_units, ruby_layout,
    ChildAlignment, RubyChild, RubyMode, RubyPiece, RubyUnit,
};

fn units() -> Vec<RubyUnit<&'static str>> {
    ruby_collect_units(vec![
        RubyChild::Base(Some("kan")),
        RubyChild::Parenthesis,
        RubyChild::Annotation("k"),
        RubyChild::Parenthesis,
        RubyChild::Other(Some("ji")),
        RubyChild::Annotation("j1"),
        RubyChild::Annotation("j2"),
    ])
}

fn shape(pieces: Vec<RubyPiece<&'static str>>) -> Vec<(Vec<&'static str>, &'static str)> {
    pieces
        .into_iter()
        .map(|piece| match piece {
            RubyPiece::Inline(span) => (Vec::new(), span),
            RubyPiece::Stacked { annotations, base } => (annotations, base),
        })
        .collect()
}

#[test]
fn children_are_grouped_into_units() {
    let units = units();
    assert_eq!(units.len(), 2);
    assert_eq!((units[0].base, units[0].annotations.clone()), (Some("kan"), vec!["k"]));
    assert_eq!((units[1].base, units[1].annotations.clone()), (Some("ji"), vec!["j1", "j2"]));
}

#[test]
fn annotation_without_base_waits_for_one() {
    let units = ruby_collect_units(vec![
        RubyChild::Annotation("early"),
        RubyChild::Base(None),
        RubyChild::Base(Some("b")),
        RubyChild::Annotation("late"),
    ]);
    assert_eq!(units.len(), 1);
    assert_eq!((units[0].base, units[0].annotations.clone()), (Some("b"), vec!["early", "late"]));
    assert_eq!(ruby_collect_units(vec![RubyChild::Annotation("alone")]).len(), 0);
    assert_eq!(ruby_collect_units(Vec::<RubyChild<&str>>::new()).len(), 0);
}

#[test]
fn ruby_is_laid_out_by_mode() {
    assert_eq!(
        shape(ruby_layout(units(), RubyMode::Ignore)),
        vec![(vec![], "kan"), (vec![], "ji")]
    );
    assert_eq!(
        shape(ruby_layout(units(), RubyMode::Fallback)),
        vec![(vec![], "kan"), (vec![], "k"), (vec![], "ji"), (vec![], "j1"), (vec![], "j2")]
    );
    assert_eq!(
        shape(ruby_layout(units(), RubyMode::Full)),
        vec![(vec!["k"], "kan"), (vec!["j1", "j2"], "ji")]
    );
}

#[test]
fn header_cells_name_the_alignment() {
    assert_eq!(header_alignment(Some("right")), Some(ChildAlignment::Right));
    assert_eq!(header_alignment(Some("center")), Some(ChildAlignment::Center));
    assert_eq!(header_alignment(Some("centre")), Some(ChildAlignment::Center));
    assert_eq!(header_alignment(Some("left")), None);
    assert_eq!(header_alignment(Some("Right")), None);
    assert_eq!(header_alignment(None), None);
}

#[test]
fn head_of_a_table() {
    assert!(is_header_row("thead", true, true));
    assert!(is_header_row("tbody", false, false));
    assert!(!is_header_row("tbody", true, false));
    assert!(!is_header_row("tbody", false, true));
    assert!(!is_header_row("THEAD", true, false));
}

#[test]
fn cells_take_the_alignment_of_their_column() {
    let columns = vec![None, Some(ChildAlignment::Right), Some(ChildAlignment::Center)];
    assert_eq!(cell_alignment(&columns, 0), None);
    assert_eq!(cell_alignment(&columns, 1), Some(ChildAlignment::Right));
    assert_eq!(cell_alignment(&columns, 2), Some(ChildAlignment::Center));
    assert_eq!(cell_alignment(&columns, 3), None);
}
