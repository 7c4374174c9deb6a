//! What the user has picked in the 3D view: faces, edges and points.
//!
//! A click without the multi-select modifier replaces the selection; with
//! it, the click toggles the picked item in or out of the selection.
use vstd::prelude::*;
use std::collections::HashSet;

verus! {

broadcast use vstd::std_specs::hash::group_hash_axioms;

/// What a click in the viewport hit, in the current selection mode. For an
/// edge or a point, the second field is the position in the current
/// selection of an already selected item that matches the picked one.
pub enum Pick<E, Pt> {
    Face(Option<usize>),
    Edge(Option<E>, Option<usize>),
    Point(Option<Pt>, Option<usize>),
}

/// The selected faces (by id), edges and points.
pub struct Selection<E, Pt> {
    pub selected_faces: HashSet<usize>,
    pub selected_edges: Vec<E>,
    pub selected_points: Vec<Pt>,
}

/// The highlight changes a click asks for: first turn the highlight off on
/// every face of `unhighlight`, then, if `face` is `Some((id, on))`, turn
/// the highlight of face `id` on or off.
pub struct ClickEffect {
    pub unhighlight: HashSet<usize>,
    pub face: Option<(usize, bool)>,
}

pub struct SelectionView<E, Pt> {
    pub faces: Set<usize>,
    pub edges: Seq<E>,
    pub points: Seq<Pt>,
}

impl<E, Pt> View for Selection<E, Pt> {
    type V = SelectionView<E, Pt>;

    open spec fn view(&self) -> SelectionView<E, Pt> {
        SelectionView {
            faces: self.selected_faces@,
            edges: self.selected_edges@,
            points: self.selected_points@,
        }
    }
}

/// The selection a click starts from: unchanged with the multi-select
/// modifier, empty without it.
pub open spec fn base_selection<E, Pt>(v: SelectionView<E, Pt>, multi: bool) -> SelectionView<E, Pt> {
    if multi {
        v
    } else {
        SelectionView { faces: Set::empty(), edges: seq![], points: seq![] }
    }
}

/// Adds `item` to a list selection, or, with the multi-select modifier and
/// a matching item at `matching`, removes that item instead.
pub open spec fn toggled<T>(list: Seq<T>, item: T, multi: bool, matching: Option<usize>) -> Seq<T> {
    if multi && matching is Some {
        list.remove(matching->0 as int)
    } else {
        list.push(item)
    }
}

/// The selection after a click.
pub open spec fn after_click<E, Pt>(
    v: SelectionView<E, Pt>,
    multi: bool,
    pick: Pick<E, Pt>,
) -> SelectionView<E, Pt> {
    let b = base_selection(v, multi);
    match pick {
        Pick::Face(Some(fid)) => if multi && b.faces.contains(fid) {
            SelectionView { faces: b.faces.remove(fid), ..b }
        } else {
            SelectionView { faces: b.faces.insert(fid), ..b }
        },
        Pick::Edge(Some(e), matching) => SelectionView {
            edges: toggled(b.edges, e, multi, matching),
            ..b
        },
        Pick::Point(Some(p), matching) => SelectionView {
            points: toggled(b.points, p, multi, matching),
            ..b
        },
        _ => b,
    }
}

/// A matching position, when one is given for a multi-select click, points
/// into the current list.
pub open spec fn pick_in_range<E, Pt>(v: SelectionView<E, Pt>, multi: bool, pick: Pick<E, Pt>) -> bool {
    match pick {
        Pick::Edge(Some(_), Some(i)) => multi ==> i < v.edges.len(),
        Pick::Point(Some(_), Some(i)) => multi ==> i < v.points.len(),
        _ => true,
    }
}

impl<E, Pt> Selection<E, Pt> {
    /// Nothing selected.
    pub fn new() -> (s: Self)
        ensures
            s@.faces == Set::<usize>::empty(),
            s@.edges == Seq::<E>::empty(),
            s@.points == Seq::<Pt>::empty(),
    {
        Selection { selected_faces: HashSet::new(), selected_edges: Vec::new(), selected_points: Vec::new() }
    }

    /// Applies a click: without `multi` the previous selection is cleared
    /// first (and its faces lose their highlight); then the picked face,
    /// edge or point is added, or, with `multi`, removed if it was already
    /// selected.
    pub fn click(&mut self, multi: bool, pick: Pick<E, Pt>) -> (effect: ClickEffect)
        requires
            pick_in_range(old(self)@, multi, pick),
        ensures
            final(self)@ == after_click(old(self)@, multi, pick),
            effect.unhighlight@ == (if multi { Set::<usize>::empty() } else { old(self)@.faces }),
            effect.face == (match pick {
                Pick::Face(Some(fid)) => Some(
                    (fid, !(multi && old(self)@.faces.contains(fid))),
                ),
                _ => None,
            }),
    {
        let mut unhighlight: HashSet<usize> = HashSet::new();
        if !multi {
            // Clear previous selection and remove face highlights
            std::mem::swap(&mut unhighlight, &mut self.selected_faces);
            self.selected_edges.clear();
            self.selected_points.clear();
        }
        let face = match pick {
            Pick::Face(picked) => match picked {
                Some(fid) => {
                    if multi && self.selected_faces.contains(&fid) {
                        self.selected_faces.remove(&fid);
                        Some((fid, false))
                    } else {
                        self.selected_faces.insert(fid);
                        Some((fid, true))
                    }
                },
                None => None,
            },
            Pick::Edge(picked, matching) => {
                if let Some(e) = picked {
                    toggle_item(&mut self.selected_edges, e, multi, matching);
                }
                None
            },
            Pick::Point(picked, matching) => {
                if let Some(p) = picked {
                    toggle_item(&mut self.selected_points, p, multi, matching);
                }
                None
            },
        };
        ClickEffect { unhighlight, face }
    }
}

/// Adds `item` to `list`, or, with `multi` and a matching item at
/// `matching`, removes that item instead.
fn toggle_item<T>(list: &mut Vec<T>, item: T, multi: bool, matching: Option<usize>)
    requires
        multi && matching is Some ==> matching->0 < old(list)@.len(),
    ensures
        final(list)@ == toggled(old(list)@, item, multi, matching),
{
    if multi {
        // Toggle if already selected
        if let Some(idx) = matching {
            list.remove(idx);
        } else {
            list.push(item);
        }
    } else {
        list.push(item);
    }
}

/// Clicking the same face twice with the multi-select modifier leaves the
/// selection as it was.
pub proof fn lemma_face_toggle_twice<E, Pt>(v: SelectionView<E, Pt>, fid: usize)
    ensures
        after_click(after_click(v, true, Pick::Face(Some(fid))), true, Pick::Face(Some(fid))) == v,
{
    let once = after_click(v, true, Pick::<E, Pt>::Face(Some(fid)));
    if v.faces.contains(fid) {
        assert(once.faces.insert(fid) =~= v.faces);
    } else {
        assert(once.faces.remove(fid) =~= v.faces);
    }
}

/// A click on a face without the multi-select modifier selects that face
/// alone.
pub proof fn lemma_single_click_selects_only<E, Pt>(v: SelectionView<E, Pt>, fid: usize)
    ensures
        after_click(v, false, Pick::Face(Some(fid))).faces == Set::<usize>::empty().insert(fid),
        after_click(v, false, Pick::<E, Pt>::Face(Some(fid))).edges.len() == 0,
        after_click(v, false, Pick::<E, Pt>::Face(Some(fid))).points.len() == 0,
{
}

/// A click without the multi-select modifier replaces the whole selection:
/// a picked edge becomes the only selected edge, a picked point the only
/// selected point, with no face selected; a click that hits nothing clears
/// the selection.
pub proof fn lemma_plain_click_replaces_selection<E, Pt>(
    v: SelectionView<E, Pt>,
    e: E,
    edge_match: Option<usize>,
    p: Pt,
    point_match: Option<usize>,
)
    ensures
        after_click(v, false, Pick::<E, Pt>::Edge(Some(e), edge_match)).edges == seq![e],
        after_click(v, false, Pick::<E, Pt>::Edge(Some(e), edge_match)).faces == Set::<usize>::empty(),
        after_click(v, false, Pick::<E, Pt>::Edge(Some(e), edge_match)).points.len() == 0,
        after_click(v, false, Pick::<E, Pt>::Point(Some(p), point_match)).points == seq![p],
        after_click(v, false, Pick::<E, Pt>::Point(Some(p), point_match)).faces == Set::<usize>::empty(),
        after_click(v, false, Pick::<E, Pt>::Point(Some(p), point_match)).edges.len() == 0,
        after_click(v, false, Pick::<E, Pt>::Face(None)).faces == Set::<usize>::empty(),
        after_click(v, false, Pick::<E, Pt>::Face(None)).edges.len() == 0,
        after_click(v, false, Pick::<E, Pt>::Face(None)).points.len() == 0,
        after_click(v, false, Pick::<E, Pt>::Edge(None, edge_match)).edges.len() == 0,
        after_click(v, false, Pick::<E, Pt>::Point(None, point_match)).points.len() == 0,
{
    assert(Seq::<E>::empty().push(e) =~= seq![e]);
    assert(Seq::<Pt>::empty().push(p) =~= seq![p]);
}

/// A click with the multi-select modifier keeps the rest of the selection:
/// a picked face is selected if it was not and deselected if it was; a new
/// edge (no matching one selected) is added at the end, a matching
/// selected edge is taken out, and the faces and points stay as they were;
/// likewise for points.
pub proof fn lemma_multi_click_keeps_the_rest<E, Pt>(
    v: SelectionView<E, Pt>,
    e: E,
    p: Pt,
    i: usize,
    fid: usize,
)
    ensures
        after_click(v, true, Pick::<E, Pt>::Face(Some(fid))).faces.contains(fid) == !v.faces.contains(fid),
        forall|g: usize| g != fid ==> after_click(v, true, Pick::<E, Pt>::Face(Some(fid))).faces.contains(g)
            == v.faces.contains(g),
        after_click(v, true, Pick::<E, Pt>::Face(Some(fid))).edges == v.edges,
        after_click(v, true, Pick::<E, Pt>::Face(Some(fid))).points == v.points,
        after_click(v, true, Pick::<E, Pt>::Face(None)) == v,
        after_click(v, true, Pick::<E, Pt>::Edge(Some(e), None)).edges == v.edges.push(e),
        i < v.edges.len() ==> after_click(v, true, Pick::<E, Pt>::Edge(Some(e), Some(i))).edges
            == v.edges.subrange(0, i as int) + v.edges.subrange(i + 1, v.edges.len() as int),
        after_click(v, true, Pick::<E, Pt>::Edge(Some(e), None)).faces == v.faces,
        after_click(v, true, Pick::<E, Pt>::Edge(Some(e), None)).points == v.points,
        after_click(v, true, Pick::<E, Pt>::Point(Some(p), None)).points == v.points.push(p),
        i < v.points.len() ==> after_click(v, true, Pick::<E, Pt>::Point(Some(p), Some(i))).points
            == v.points.subrange(0, i as int) + v.points.subrange(i + 1, v.points.len() as int),
        after_click(v, true, Pick::<E, Pt>::Point(Some(p), None)).faces == v.faces,
        after_click(v, true, Pick::<E, Pt>::Point(Some(p), None)).edges == v.edges,
{
    if i < v.edges.len() {
        assert(v.edges.remove(i as int) =~= v.edges.subrange(0, i as int) + v.edges.subrange(i + 1, v.edges.len() as int));
    }
    if i < v.points.len() {
        assert(v.points.remove(i as int) =~= v.points.subrange(0, i as int) + v.points.subrange(i + 1, v.points.len() as int));
    }
}

/// Picking a new edge (or point) with the multi-select modifier and then
/// picking it again, when it is found at the end of the list, restores the
/// list.
pub proof fn lemma_list_toggle_twice<T>(list: Seq<T>, item: T)
    requires
        list.len() < usize::MAX,
    ensures
        toggled(toggled(list, item, true, None), item, true, Some(list.len() as usize)) == list,
{
    assert(list.push(item).remove(list.len() as int) =~= list);
}

} // verus!
