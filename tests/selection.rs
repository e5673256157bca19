use studio_build::selection::{Bias, BiasedTextPos, Cursor, Selection, TextLen, TextPos};

fn bpos(line: usize, byte: usize) -> BiasedTextPos {
    BiasedTextPos { pos: TextPos { line, byte }, bias: Bias::Before }
}

fn sel(anchor: BiasedTextPos, cursor: BiasedTextPos) -> Selection {
    Selection { anchor, cursor: Cursor { pos: cursor, column: None } }
}

#[test]
fn empty_selection_is_empty() {
    assert!(sel(bpos(1, 2), bpos(1, 2)).is_empty());
    assert!(!sel(bpos(1, 2), bpos(1, 3)).is_empty());
}

#[test]
fn start_and_end_order_anchor_and_cursor() {
    let s = sel(bpos(3, 1), bpos(1, 4));
    assert_eq!(s.start(), bpos(1, 4));
    assert_eq!(s.end(), bpos(3, 1));
    let t = sel(bpos(1, 4), bpos(3, 1));
    assert_eq!(t.start(), bpos(1, 4));
    assert_eq!(t.end(), bpos(3, 1));
}

#[test]
fn bias_breaks_ties() {
    let after = BiasedTextPos { pos: TextPos { line: 2, byte: 2 }, bias: Bias::After };
    let s = sel(after, bpos(2, 2));
    assert_eq!(s.start(), bpos(2, 2));
    assert_eq!(s.end(), after);
    assert!(!s.is_empty());
}

#[test]
fn length_on_one_line_and_across_lines() {
    assert_eq!(sel(bpos(2, 3), bpos(2, 8)).length(), TextLen { lines: 0, bytes: 5 });
    assert_eq!(sel(bpos(4, 6), bpos(1, 9)).length(), TextLen { lines: 3, bytes: 6 });
}

#[test]
fn overlapping_selections_merge() {
    assert!(sel(bpos(0, 0), bpos(0, 5)).should_merge(sel(bpos(0, 3), bpos(0, 8))));
    assert!(sel(bpos(0, 3), bpos(0, 8)).should_merge(sel(bpos(0, 0), bpos(0, 5))));
}

#[test]
fn touching_selections_merge_only_when_one_is_empty() {
    assert!(!sel(bpos(0, 0), bpos(0, 5)).should_merge(sel(bpos(0, 5), bpos(0, 8))));
    assert!(sel(bpos(0, 0), bpos(0, 5)).should_merge(sel(bpos(0, 5), bpos(0, 5))));
    assert!(sel(bpos(0, 5), bpos(0, 5)).should_merge(sel(bpos(0, 0), bpos(0, 5))));
}

#[test]
fn disjoint_selections_do_not_merge() {
    assert!(!sel(bpos(0, 0), bpos(0, 2)).should_merge(sel(bpos(1, 0), bpos(1, 2))));
    assert!(!sel(bpos(0, 4), bpos(0, 4)).should_merge(sel(bpos(0, 2), bpos(0, 2))));
}

#[test]
fn reset_anchor_collapses_to_cursor() {
    let s = sel(bpos(0, 1), bpos(2, 2)).reset_anchor();
    assert_eq!(s.anchor, bpos(2, 2));
    assert!(s.is_empty());
}

#[test]
fn update_cursor_keeps_anchor() {
    let s = sel(bpos(0, 1), bpos(0, 1));
    let moved = s.update_cursor(|_c| Cursor { pos: bpos(5, 0), column: Some(7) });
    assert_eq!(moved.anchor, bpos(0, 1));
    assert_eq!(moved.cursor, Cursor { pos: bpos(5, 0), column: Some(7) });
}

#[test]
fn from_conversions_give_empty_selections() {
    let p = TextPos { line: 3, byte: 4 };
    let s = Selection::from(p);
    assert_eq!(s.anchor, bpos(3, 4));
    assert!(s.is_empty());
    let b = BiasedTextPos { pos: p, bias: Bias::After };
    assert_eq!(Selection::from(b).cursor.pos, b);
    let c = Cursor { pos: b, column: Some(2) };
    assert_eq!(Selection::from(c), Selection { anchor: b, cursor: c });
}
