use step_viewer_core::selection::{Pick, Selection};
use std::collections::HashSet;

type Sel = Selection<(i32, i32), i32>;

fn set(ids: &[usize]) -> HashSet<usize> {
    ids.iter().copied().collect()
}

#[test]
fn single_click_replaces_the_selection() {
    let mut s: Sel = Selection::new();
    let e = s.click(false, Pick::Face(Some(3)));
    assert!(e.unhighlight.is_empty());
    assert_eq!(e.face, Some((3, true)));
    s.click(true, Pick::Face(Some(4)));
    s.click(true, Pick::Edge(Some((1, 2)), None));
    let e = s.click(false, Pick::Face(Some(5)));
    assert_eq!(e.unhighlight, set(&[3, 4]));
    assert_eq!(e.face, Some((5, true)));
    assert_eq!(s.selected_faces, set(&[5]));
    assert!(s.selected_edges.is_empty());
}

#[test]
fn multi_click_toggles_faces() {
    let mut s: Sel = Selection::new();
    s.click(true, Pick::Face(Some(1)));
    s.click(true, Pick::Face(Some(2)));
    let e = s.click(true, Pick::Face(Some(1)));
    assert!(e.unhighlight.is_empty());
    assert_eq!(e.face, Some((1, false)));
    assert_eq!(s.selected_faces, set(&[2]));
}

#[test]
fn click_on_nothing_only_clears() {
    let mut s: Sel = Selection::new();
    s.click(true, Pick::Point(Some(7), None));
    let e = s.click(false, Pick::Face(None));
    assert_eq!(e.face, None);
    assert!(s.selected_points.is_empty());
    let e = s.click(true, Pick::Edge(None, None));
    assert_eq!(e.face, None);
}

#[test]
fn multi_click_toggles_edges_and_points() {
    let mut s: Sel = Selection::new();
    s.click(true, Pick::Edge(Some((1, 2)), None));
    s.click(true, Pick::Edge(Some((3, 4)), None));
    s.click(true, Pick::Edge(Some((1, 2)), Some(0)));
    assert_eq!(s.selected_edges, vec![(3, 4)]);
    s.click(true, Pick::Point(Some(9), None));
    s.click(true, Pick::Point(Some(9), Some(0)));
    assert!(s.selected_points.is_empty());
    // without the modifier a matching item is not removed: the list restarts
    s.click(false, Pick::Point(Some(9), Some(0)));
    assert_eq!(s.selected_points, vec![9]);
}
