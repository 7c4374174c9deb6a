//! Layout decisions for the viewport and its overlays.
use vstd::prelude::*;

verus! {

/// The part of the window, in physical pixels, that the 3D view draws into.
#[derive(Clone, Copy, PartialEq, Eq, Structural, Debug)]
pub struct Viewport {
    pub x: u32,
    pub y: u32,
    pub width: u32,
    pub height: u32,
}

/// The viewport for a window and its side panels (see `camera_viewport`).
pub open spec fn camera_viewport_spec(window_width: u32, window_height: u32, left_panel: u32, right_panel: u32) -> Viewport {
    Viewport {
        x: left_panel,
        y: 0,
        width: if window_width >= left_panel + right_panel {
            (window_width - left_panel - right_panel) as u32
        } else {
            0
        },
        height: window_height,
    }
}

/// The 3D view fills the window between the left and the right side panels:
/// it starts right of the left panel and is as wide as what remains of the
/// window once both panels are taken away (nothing if they cover it).
pub fn camera_viewport(window_width: u32, window_height: u32, left_panel: u32, right_panel: u32) -> (v: Viewport)
    ensures
        v == camera_viewport_spec(window_width, window_height, left_panel, right_panel),
{
    let viewport_width = window_width.saturating_sub(left_panel).saturating_sub(right_panel);
    Viewport { x: left_panel, y: 0, width: viewport_width, height: window_height }
}

/// When the side panels fit in the window, the viewport and the two panels
/// exactly tile the window's width; when they do not, the viewport has no
/// width. The viewport always starts right of the left panel, at the top,
/// and is as high as the window.
pub proof fn lemma_viewport_tiles_window(window_width: u32, window_height: u32, left_panel: u32, right_panel: u32)
    ensures
        ({
            let v = camera_viewport_spec(window_width, window_height, left_panel, right_panel);
            &&& left_panel + right_panel <= window_width ==> left_panel + v.width + right_panel == window_width
            &&& left_panel + right_panel > window_width ==> v.width == 0
            &&& v.x == left_panel
            &&& v.y == 0
            &&& v.height == window_height
        }),
{
}

/// A corner of an axis-aligned box: for each axis, whether it is at the
/// box's maximum (`true`) or minimum.
#[derive(Clone, Copy, PartialEq, Eq, Structural, Debug)]
pub struct BoxCorner {
    pub max_x: bool,
    pub max_y: bool,
    pub max_z: bool,
}

pub open spec fn corner(max_x: bool, max_y: bool, max_z: bool) -> BoxCorner {
    BoxCorner { max_x, max_y, max_z }
}

/// The edges of the bounding box, in drawing order: the four edges of the
/// bottom face, the four of the top face, then the four vertical edges.
pub open spec fn box_edges_spec() -> Seq<(BoxCorner, BoxCorner)> {
    seq![
        (corner(false, false, false), corner(true, false, false)),
        (corner(true, false, false), corner(true, false, true)),
        (corner(true, false, true), corner(false, false, true)),
        (corner(false, false, true), corner(false, false, false)),
        (corner(false, true, false), corner(true, true, false)),
        (corner(true, true, false), corner(true, true, true)),
        (corner(true, true, true), corner(false, true, true)),
        (corner(false, true, true), corner(false, true, false)),
        (corner(false, false, false), corner(false, true, false)),
        (corner(true, false, false), corner(true, true, false)),
        (corner(true, false, true), corner(true, true, true)),
        (corner(false, false, true), corner(false, true, true)),
    ]
}

/// Number of axes along which two corners differ.
pub open spec fn corner_distance(a: BoxCorner, b: BoxCorner) -> int {
    (if a.max_x != b.max_x { 1int } else { 0 }) + (if a.max_y != b.max_y { 1int } else { 0 }) + (
    if a.max_z != b.max_z { 1int } else { 0 })
}

/// The twelve edges of the bounding box, each as its two end corners.
pub fn bounding_box_edges() -> (edges: Vec<(BoxCorner, BoxCorner)>)
    ensures
        edges@ == box_edges_spec(),
{
    let mut edges: Vec<(BoxCorner, BoxCorner)> = Vec::new();
    // Bottom face
    edges.push((BoxCorner { max_x: false, max_y: false, max_z: false }, BoxCorner { max_x: true, max_y: false, max_z: false }));
    edges.push((BoxCorner { max_x: true, max_y: false, max_z: false }, BoxCorner { max_x: true, max_y: false, max_z: true }));
    edges.push((BoxCorner { max_x: true, max_y: false, max_z: true }, BoxCorner { max_x: false, max_y: false, max_z: true }));
    edges.push((BoxCorner { max_x: false, max_y: false, max_z: true }, BoxCorner { max_x: false, max_y: false, max_z: false }));
    // Top face
    edges.push((BoxCorner { max_x: false, max_y: true, max_z: false }, BoxCorner { max_x: true, max_y: true, max_z: false }));
    edges.push((BoxCorner { max_x: true, max_y: true, max_z: false }, BoxCorner { max_x: true, max_y: true, max_z: true }));
    edges.push((BoxCorner { max_x: true, max_y: true, max_z: true }, BoxCorner { max_x: false, max_y: true, max_z: true }));
    edges.push((BoxCorner { max_x: false, max_y: true, max_z: true }, BoxCorner { max_x: false, max_y: true, max_z: false }));
    // Vertical edges
    edges.push((BoxCorner { max_x: false, max_y: false, max_z: false }, BoxCorner { max_x: false, max_y: true, max_z: false }));
    edges.push((BoxCorner { max_x: true, max_y: false, max_z: false }, BoxCorner { max_x: true, max_y: true, max_z: false }));
    edges.push((BoxCorner { max_x: true, max_y: false, max_z: true }, BoxCorner { max_x: true, max_y: true, max_z: true }));
    edges.push((BoxCorner { max_x: false, max_y: false, max_z: true }, BoxCorner { max_x: false, max_y: true, max_z: true }));
    assert(edges@ =~= box_edges_spec());
    edges
}

/// Edge `i` of the bounding box, as listed by `box_edges_spec`.
pub open spec fn box_edge(i: int) -> (BoxCorner, BoxCorner) {
    if i == 0 {
        (corner(false, false, false), corner(true, false, false))
    } else if i == 1 {
        (corner(true, false, false), corner(true, false, true))
    } else if i == 2 {
        (corner(true, false, true), corner(false, false, true))
    } else if i == 3 {
        (corner(false, false, true), corner(false, false, false))
    } else if i == 4 {
        (corner(false, true, false), corner(true, true, false))
    } else if i == 5 {
        (corner(true, true, false), corner(true, true, true))
    } else if i == 6 {
        (corner(true, true, true), corner(false, true, true))
    } else if i == 7 {
        (corner(false, true, true), corner(false, true, false))
    } else if i == 8 {
        (corner(false, false, false), corner(false, true, false))
    } else if i == 9 {
        (corner(true, false, false), corner(true, true, false))
    } else if i == 10 {
        (corner(true, false, true), corner(true, true, true))
    } else {
        (corner(false, false, true), corner(false, true, true))
    }
}

proof fn lemma_box_edge(i: int)
    requires
        0 <= i < 12,
    ensures
        box_edges_spec()[i] == box_edge(i),
{
    let e = box_edges_spec();
    if i == 0 { assert(e[0] == (corner(false, false, false), corner(true, false, false))); }
    if i == 1 { assert(e[1] == (corner(true, false, false), corner(true, false, true))); }
    if i == 2 { assert(e[2] == (corner(true, false, true), corner(false, false, true))); }
    if i == 3 { assert(e[3] == (corner(false, false, true), corner(false, false, false))); }
    if i == 4 { assert(e[4] == (corner(false, true, false), corner(true, true, false))); }
    if i == 5 { assert(e[5] == (corner(true, true, false), corner(true, true, true))); }
    if i == 6 { assert(e[6] == (corner(true, true, true), corner(false, true, true))); }
    if i == 7 { assert(e[7] == (corner(false, true, true), corner(false, true, false))); }
    if i == 8 { assert(e[8] == (corner(false, false, false), corner(false, true, false))); }
    if i == 9 { assert(e[9] == (corner(true, false, false), corner(true, true, false))); }
    if i == 10 { assert(e[10] == (corner(true, false, true), corner(true, true, true))); }
    if i == 11 { assert(e[11] == (corner(false, false, true), corner(false, true, true))); }
}

/// The drawn segments are exactly the edges of the box: each of the twelve
/// joins two corners that differ along one axis (so it runs along an edge of
/// the box), and no two of them join the same pair of corners. A box has
/// twelve edges, so every edge is drawn once.
pub proof fn lemma_bounding_box_edges(i: int, j: int)
    requires
        0 <= i < 12,
        0 <= j < 12,
    ensures
        box_edges_spec().len() == 12,
        corner_distance(box_edges_spec()[i].0, box_edges_spec()[i].1) == 1,
        i != j ==> {
            let (a, b) = (box_edges_spec()[i], box_edges_spec()[j]);
            !((a.0 == b.0 && a.1 == b.1) || (a.0 == b.1 && a.1 == b.0))
        },
{
    lemma_box_edge(i);
    lemma_box_edge(j);
}

} // verus!
