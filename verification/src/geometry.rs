//! Integer geometry of the demo cube and the axis indicator.
//!
//! Every coordinate that the renderer uploads for these shapes is a small
//! integer, and every colour channel is either fully on or fully off, so the
//! shapes are computed here exactly and only turned into floats at upload time.
use vstd::prelude::*;

verus! {

/// A point (or direction) with integer coordinates.
#[derive(Clone, Copy, PartialEq, Eq, Structural, Debug)]
pub struct Point3 {
    pub x: i32,
    pub y: i32,
    pub z: i32,
}

/// An RGB colour whose channels are each either fully on (`true`) or off.
#[derive(Clone, Copy, PartialEq, Eq, Structural, Debug)]
pub struct UnitColor {
    pub r: bool,
    pub g: bool,
    pub b: bool,
}

/// A coloured vertex. A position of `None` stands for a position whose
/// coordinates are not numbers (the result of normalising a zero vector).
#[derive(Clone, Copy, PartialEq, Eq, Structural, Debug)]
pub struct Vertex {
    pub position: Option<Point3>,
    pub color: UnitColor,
}

/// A point with literal coordinates.
pub open spec fn pt(x: i32, y: i32, z: i32) -> Point3 {
    Point3 { x, y, z }
}

/// A point with computed integer coordinates (each assumed to fit an `i32`).
pub open spec fn point(x: int, y: int, z: int) -> Point3 {
    Point3 { x: x as i32, y: y as i32, z: z as i32 }
}

pub open spec fn rgb(r: bool, g: bool, b: bool) -> UnitColor {
    UnitColor { r, g, b }
}

pub open spec fn at(p: Point3, c: UnitColor) -> Vertex {
    Vertex { position: Some(p), color: c }
}

/// Builds a vertex from small integer coordinates.
pub fn vertex(pos: [i8; 3], color: UnitColor) -> (v: Vertex)
    ensures
        v == at(pt(pos@[0] as i32, pos@[1] as i32, pos@[2] as i32), color),
{
    Vertex {
        position: Some(Point3 { x: pos[0] as i32, y: pos[1] as i32, z: pos[2] as i32 }),
        color,
    }
}

pub open spec fn red() -> UnitColor { rgb(true, false, false) }
pub open spec fn green() -> UnitColor { rgb(false, true, false) }
pub open spec fn blue() -> UnitColor { rgb(false, false, true) }
pub open spec fn yellow() -> UnitColor { rgb(true, true, false) }
pub open spec fn cyan() -> UnitColor { rgb(false, true, true) }
pub open spec fn magenta() -> UnitColor { rgb(true, false, true) }

/// The 24 cube vertices: four per face, in the order front, back, right,
/// left, top, bottom, each face with its own colour.
pub open spec fn cube_vertices_spec() -> Seq<Vertex> {
    seq![
        at(pt(-1i32, -1i32, 1i32), red()), at(pt(1i32, -1i32, 1i32), red()),
        at(pt(1i32, 1i32, 1i32), red()), at(pt(-1i32, 1i32, 1i32), red()),
        at(pt(-1i32, -1i32, -1i32), green()), at(pt(1i32, -1i32, -1i32), green()),
        at(pt(1i32, 1i32, -1i32), green()), at(pt(-1i32, 1i32, -1i32), green()),
        at(pt(1i32, -1i32, -1i32), blue()), at(pt(1i32, -1i32, 1i32), blue()),
        at(pt(1i32, 1i32, 1i32), blue()), at(pt(1i32, 1i32, -1i32), blue()),
        at(pt(-1i32, -1i32, -1i32), yellow()), at(pt(-1i32, -1i32, 1i32), yellow()),
        at(pt(-1i32, 1i32, 1i32), yellow()), at(pt(-1i32, 1i32, -1i32), yellow()),
        at(pt(-1i32, 1i32, -1i32), cyan()), at(pt(1i32, 1i32, -1i32), cyan()),
        at(pt(1i32, 1i32, 1i32), cyan()), at(pt(-1i32, 1i32, 1i32), cyan()),
        at(pt(-1i32, -1i32, -1i32), magenta()), at(pt(1i32, -1i32, -1i32), magenta()),
        at(pt(1i32, -1i32, 1i32), magenta()), at(pt(-1i32, -1i32, 1i32), magenta()),
    ]
}

/// The vertices of the unit cube `[-1, 1]^3`, four per face.
pub fn create_cube_vertices() -> (v: Vec<Vertex>)
    ensures
        v@ == cube_vertices_spec(),
{
    let r = UnitColor { r: true, g: false, b: false };
    let g = UnitColor { r: false, g: true, b: false };
    let b = UnitColor { r: false, g: false, b: true };
    let y = UnitColor { r: true, g: true, b: false };
    let c = UnitColor { r: false, g: true, b: true };
    let m = UnitColor { r: true, g: false, b: true };

    let v = vec![
        // front
        vertex([-1, -1, 1], r),
        vertex([1, -1, 1], r),
        vertex([1, 1, 1], r),
        vertex([-1, 1, 1], r),
        // back
        vertex([-1, -1, -1], g),
        vertex([1, -1, -1], g),
        vertex([1, 1, -1], g),
        vertex([-1, 1, -1], g),
        // right
        vertex([1, -1, -1], b),
        vertex([1, -1, 1], b),
        vertex([1, 1, 1], b),
        vertex([1, 1, -1], b),
        // left
        vertex([-1, -1, -1], y),
        vertex([-1, -1, 1], y),
        vertex([-1, 1, 1], y),
        vertex([-1, 1, -1], y),
        // top
        vertex([-1, 1, -1], c),
        vertex([1, 1, -1], c),
        vertex([1, 1, 1], c),
        vertex([-1, 1, 1], c),
        // bottom
        vertex([-1, -1, -1], m),
        vertex([1, -1, -1], m),
        vertex([1, -1, 1], m),
        vertex([-1, -1, 1], m),
    ];
    assert(v@ =~= cube_vertices_spec());
    v
}

/// Offsets, within a face's four vertices, of the face's two triangles.
pub open spec fn quad_corner(k: int) -> int {
    if k == 0 { 0 } else if k == 1 { 1 } else if k == 2 { 2 }
    else if k == 3 { 0 } else if k == 4 { 2 } else { 3 }
}

/// Index `i` of the cube's index buffer: triangle corners of face `i / 6`.
pub open spec fn cube_index_spec(i: int) -> int {
    4 * (i / 6) + quad_corner(i % 6)
}

/// The cube's 36 indices as a sequence.
pub open spec fn cube_index_seq() -> Seq<u16> {
    Seq::new(36, |i: int| cube_index_spec(i) as u16)
}

/// Index buffer of the cube: two triangles per face, `(0, 1, 2)` and
/// `(0, 2, 3)` relative to the face's first vertex.
pub fn cube_indices() -> (indices: Vec<u16>)
    ensures
        indices@.len() == 36,
        forall|i: int| 0 <= i < 36 ==> indices@[i] == cube_index_spec(i),
{
    let mut indices: Vec<u16> = Vec::new();
    for i in 0..6u16
        invariant
            indices@.len() == 6 * i,
            forall|j: int| 0 <= j < 6 * i ==> indices@[j] == cube_index_spec(j),
    {
        let start = i * 4;
        indices.extend_from_slice(&[start, start + 1, start + 2, start, start + 2, start + 3]);
        assert forall|j: int| 6 * i <= j < 6 * i + 6 implies indices@[j] == cube_index_spec(j) by {
            assert(j / 6 == i);
            assert(j % 6 == j - 6 * i);
        }
    }
    indices
}

/// First in-plane coordinate of corner `k` (0..4) when a face's square is
/// walked counter-clockwise from `(-1, -1)`.
pub open spec fn square_u(k: int) -> i32 {
    if k == 0 || k == 3 { -1i32 } else { 1i32 }
}

/// Second in-plane coordinate of corner `k` of a face's square.
pub open spec fn square_v(k: int) -> i32 {
    if k == 0 || k == 1 { -1i32 } else { 1i32 }
}

/// Corner `k` of cube face `f`: the front and back faces (`z = 1`, `z = -1`)
/// are walked in `(x, y)`, the right and left faces (`x = 1`, `x = -1`) in
/// `(z, y)`, and the top and bottom faces (`y = 1`, `y = -1`) in `(x, z)`.
pub open spec fn face_corner(f: int, k: int) -> Point3 {
    let (u, v) = (square_u(k), square_v(k));
    if f == 0 { pt(u, v, 1i32) } else if f == 1 { pt(u, v, -1i32) }
    else if f == 2 { pt(1i32, v, u) } else if f == 3 { pt(-1i32, v, u) }
    else if f == 4 { pt(u, 1i32, v) } else { pt(u, -1i32, v) }
}

/// The plane, among the six planes bounding the cube, that face `f` lies in.
pub open spec fn on_cube_face(p: Point3, f: int) -> bool {
    if f == 0 { p.z == 1 } else if f == 1 { p.z == -1 } else if f == 2 { p.x == 1 }
    else if f == 3 { p.x == -1 } else if f == 4 { p.y == 1 } else { p.y == -1 }
}

/// `p` is one of the eight corners of the cube `[-1, 1]^3`.
pub open spec fn is_cube_corner(p: Point3) -> bool {
    &&& (p.x == 1 || p.x == -1)
    &&& (p.y == 1 || p.y == -1)
    &&& (p.z == 1 || p.z == -1)
}

/// The colour of cube face `f`.
pub open spec fn cube_face_color(f: int) -> UnitColor {
    if f == 0 { red() } else if f == 1 { green() } else if f == 2 { blue() }
    else if f == 3 { yellow() } else if f == 4 { cyan() } else { magenta() }
}

/// Vertex `i` of the cube is corner `i % 4` of face `i / 4`, and carries that
/// face's colour.
pub proof fn lemma_cube_vertex_is_face_corner(i: int)
    requires
        0 <= i < 24,
    ensures
        cube_vertices_spec()[i] == at(face_corner(i / 4, i % 4), cube_face_color(i / 4)),
{
    let s = cube_vertices_spec();
    if i == 0 { assert(s[0] == at(pt(-1i32, -1i32, 1i32), red())); }
    if i == 1 { assert(s[1] == at(pt(1i32, -1i32, 1i32), red())); }
    if i == 2 { assert(s[2] == at(pt(1i32, 1i32, 1i32), red())); }
    if i == 3 { assert(s[3] == at(pt(-1i32, 1i32, 1i32), red())); }
    if i == 4 { assert(s[4] == at(pt(-1i32, -1i32, -1i32), green())); }
    if i == 5 { assert(s[5] == at(pt(1i32, -1i32, -1i32), green())); }
    if i == 6 { assert(s[6] == at(pt(1i32, 1i32, -1i32), green())); }
    if i == 7 { assert(s[7] == at(pt(-1i32, 1i32, -1i32), green())); }
    if i == 8 { assert(s[8] == at(pt(1i32, -1i32, -1i32), blue())); }
    if i == 9 { assert(s[9] == at(pt(1i32, -1i32, 1i32), blue())); }
    if i == 10 { assert(s[10] == at(pt(1i32, 1i32, 1i32), blue())); }
    if i == 11 { assert(s[11] == at(pt(1i32, 1i32, -1i32), blue())); }
    if i == 12 { assert(s[12] == at(pt(-1i32, -1i32, -1i32), yellow())); }
    if i == 13 { assert(s[13] == at(pt(-1i32, -1i32, 1i32), yellow())); }
    if i == 14 { assert(s[14] == at(pt(-1i32, 1i32, 1i32), yellow())); }
    if i == 15 { assert(s[15] == at(pt(-1i32, 1i32, -1i32), yellow())); }
    if i == 16 { assert(s[16] == at(pt(-1i32, 1i32, -1i32), cyan())); }
    if i == 17 { assert(s[17] == at(pt(1i32, 1i32, -1i32), cyan())); }
    if i == 18 { assert(s[18] == at(pt(1i32, 1i32, 1i32), cyan())); }
    if i == 19 { assert(s[19] == at(pt(-1i32, 1i32, 1i32), cyan())); }
    if i == 20 { assert(s[20] == at(pt(-1i32, -1i32, -1i32), magenta())); }
    if i == 21 { assert(s[21] == at(pt(1i32, -1i32, -1i32), magenta())); }
    if i == 22 { assert(s[22] == at(pt(1i32, -1i32, 1i32), magenta())); }
    if i == 23 { assert(s[23] == at(pt(-1i32, -1i32, 1i32), magenta())); }
}

/// Every cube vertex is a corner of the cube, lies on the plane of its face
/// and has that face's colour; the four vertices of a face are distinct.
pub proof fn lemma_cube_vertices_on_faces(i: int, j: int)
    requires
        0 <= i < 24,
        0 <= j < 24,
    ensures
        cube_vertices_spec()[i].position is Some,
        is_cube_corner(cube_vertices_spec()[i].position->0),
        on_cube_face(cube_vertices_spec()[i].position->0, i / 4),
        cube_vertices_spec()[i].color == cube_face_color(i / 4),
        i != j && i / 4 == j / 4 ==> cube_vertices_spec()[i].position != cube_vertices_spec()[j].position,
{
    lemma_cube_vertex_is_face_corner(i);
    lemma_cube_vertex_is_face_corner(j);
}

/// The six faces have six different colours.
pub proof fn lemma_cube_face_colors_distinct(f: int, g: int)
    requires
        0 <= f < 6,
        0 <= g < 6,
        f != g,
    ensures
        cube_face_color(f) != cube_face_color(g),
{
}

/// Every triangle of the cube's index buffer is made of three distinct
/// vertices of one face: triangle `t` (indices `3t .. 3t + 3`) lies in face
/// `t / 2`, on that face's plane, in that face's colour.
pub proof fn lemma_cube_triangles_on_faces(t: int, k: int, l: int)
    requires
        0 <= t < 12,
        0 <= k < 3,
        0 <= l < 3,
    ensures
        0 <= cube_index_spec(3 * t + k) < 24,
        cube_index_spec(3 * t + k) / 4 == t / 2,
        on_cube_face(cube_vertices_spec()[cube_index_spec(3 * t + k)].position->0, t / 2),
        cube_vertices_spec()[cube_index_spec(3 * t + k)].color == cube_face_color(t / 2),
        k != l ==> cube_vertices_spec()[cube_index_spec(3 * t + k)].position
            != cube_vertices_spec()[cube_index_spec(3 * t + l)].position,
{
    let i = 3 * t + k;
    let j = 3 * t + l;
    assert(i / 6 == t / 2 && j / 6 == t / 2);
    assert(i % 6 == 3 * (t % 2) + k && j % 6 == 3 * (t % 2) + l);
    lemma_cube_vertices_on_faces(cube_index_spec(i), cube_index_spec(j));
}

/// Outward unit normal of cube face `f`.
pub open spec fn outward_normal(f: int) -> (int, int, int) {
    if f == 0 { (0, 0, 1) } else if f == 1 { (0, 0, -1) } else if f == 2 { (1, 0, 0) }
    else if f == 3 { (-1, 0, 0) } else if f == 4 { (0, 1, 0) } else { (0, -1, 0) }
}

/// `((b - a) x (c - a)) . n`: positive when the triangle `a, b, c` winds
/// counter-clockwise seen from the side `n` points to.
pub open spec fn winding(a: Point3, b: Point3, c: Point3, n: (int, int, int)) -> int {
    let (ux, uy, uz) = (b.x - a.x, b.y - a.y, b.z - a.z);
    let (vx, vy, vz) = (c.x - a.x, c.y - a.y, c.z - a.z);
    (uy * vz - uz * vy) * n.0 + (uz * vx - ux * vz) * n.1 + (ux * vy - uy * vx) * n.2
}

/// Winding of the cube's triangles, seen from outside the cube. The
/// pipeline that draws the cube keeps counter-clockwise triangles and culls
/// the others. The triangles of the front, left and bottom faces wind
/// counter-clockwise from outside; those of the back, right and top faces
/// wind clockwise from outside (so, for example, the back face's triangles
/// are culled when the back of the cube faces the viewer).
pub proof fn lemma_cube_winding(t: int)
    requires
        0 <= t < 12,
    ensures
        ({
            let v = cube_vertices_spec();
            let f = t / 2;
            let w = winding(
                v[cube_index_spec(3 * t)].position->0,
                v[cube_index_spec(3 * t + 1)].position->0,
                v[cube_index_spec(3 * t + 2)].position->0,
                outward_normal(f),
            );
            &&& (f == 0 || f == 3 || f == 5) ==> w > 0
            &&& (f == 1 || f == 2 || f == 4) ==> w < 0
        }),
{
    let i0 = cube_index_spec(3 * t);
    let i1 = cube_index_spec(3 * t + 1);
    let i2 = cube_index_spec(3 * t + 2);
    assert((3 * t) / 6 == t / 2 && (3 * t + 1) / 6 == t / 2 && (3 * t + 2) / 6 == t / 2);
    assert((3 * t) % 6 == 3 * (t % 2) && (3 * t + 1) % 6 == 3 * (t % 2) + 1 && (3 * t + 2) % 6 == 3 * (t % 2) + 2);
    lemma_cube_vertex_is_face_corner(i0);
    lemma_cube_vertex_is_face_corner(i1);
    lemma_cube_vertex_is_face_corner(i2);
    if t % 2 == 0 {
        assert(i0 % 4 == 0 && i1 % 4 == 1 && i2 % 4 == 2);
    } else {
        assert(i0 % 4 == 0 && i1 % 4 == 2 && i2 % 4 == 3);
    }
    lemma_face_winding(t / 2);
}

/// Winding of the two triangles `(0, 1, 2)` and `(0, 2, 3)` of face `f`.
proof fn lemma_face_winding(f: int)
    requires
        0 <= f < 6,
    ensures
        ({
            let w1 = winding(face_corner(f, 0), face_corner(f, 1), face_corner(f, 2), outward_normal(f));
            let w2 = winding(face_corner(f, 0), face_corner(f, 2), face_corner(f, 3), outward_normal(f));
            &&& (f == 0 || f == 3 || f == 5) ==> w1 > 0 && w2 > 0
            &&& (f == 1 || f == 2 || f == 4) ==> w1 < 0 && w2 < 0
        }),
{
    if f == 0 {
        assert(winding(pt(-1i32, -1i32, 1i32), pt(1i32, -1i32, 1i32), pt(1i32, 1i32, 1i32), (0, 0, 1)) == 4) by (nonlinear_arith);
        assert(winding(pt(-1i32, -1i32, 1i32), pt(1i32, 1i32, 1i32), pt(-1i32, 1i32, 1i32), (0, 0, 1)) == 4) by (nonlinear_arith);
    } else if f == 1 {
        assert(winding(pt(-1i32, -1i32, -1i32), pt(1i32, -1i32, -1i32), pt(1i32, 1i32, -1i32), (0, 0, -1)) == -4) by (nonlinear_arith);
        assert(winding(pt(-1i32, -1i32, -1i32), pt(1i32, 1i32, -1i32), pt(-1i32, 1i32, -1i32), (0, 0, -1)) == -4) by (nonlinear_arith);
    } else if f == 2 {
        assert(winding(pt(1i32, -1i32, -1i32), pt(1i32, -1i32, 1i32), pt(1i32, 1i32, 1i32), (1, 0, 0)) == -4) by (nonlinear_arith);
        assert(winding(pt(1i32, -1i32, -1i32), pt(1i32, 1i32, 1i32), pt(1i32, 1i32, -1i32), (1, 0, 0)) == -4) by (nonlinear_arith);
    } else if f == 3 {
        assert(winding(pt(-1i32, -1i32, -1i32), pt(-1i32, -1i32, 1i32), pt(-1i32, 1i32, 1i32), (-1, 0, 0)) == 4) by (nonlinear_arith);
        assert(winding(pt(-1i32, -1i32, -1i32), pt(-1i32, 1i32, 1i32), pt(-1i32, 1i32, -1i32), (-1, 0, 0)) == 4) by (nonlinear_arith);
    } else if f == 4 {
        assert(winding(pt(-1i32, 1i32, -1i32), pt(1i32, 1i32, -1i32), pt(1i32, 1i32, 1i32), (0, 1, 0)) == -4) by (nonlinear_arith);
        assert(winding(pt(-1i32, 1i32, -1i32), pt(1i32, 1i32, 1i32), pt(-1i32, 1i32, 1i32), (0, 1, 0)) == -4) by (nonlinear_arith);
    } else {
        assert(winding(pt(-1i32, -1i32, -1i32), pt(1i32, -1i32, -1i32), pt(1i32, -1i32, 1i32), (0, -1, 0)) == 4) by (nonlinear_arith);
        assert(winding(pt(-1i32, -1i32, -1i32), pt(1i32, -1i32, 1i32), pt(-1i32, -1i32, 1i32), (0, -1, 0)) == 4) by (nonlinear_arith);
    }
}

// ---------------------------------------------------------------------------
// Axis indicator
// ---------------------------------------------------------------------------

/// Length of an axis stem.
pub const STEM_LEN: i32 = 80;
/// Length of an arrowhead, from the end of the stem to the tip.
pub const ARROW_LEN: i32 = 20;
/// Distance of the arrowhead's base corners from the axis.
pub const ARROW_RADIUS: i32 = 8;

pub open spec fn cross_spec(a: Point3, b: Point3) -> Point3 {
    point(
        a.y * b.z - a.z * b.y,
        a.z * b.x - a.x * b.z,
        a.x * b.y - a.y * b.x,
    )
}

pub open spec fn in_i32(v: int) -> bool {
    i32::MIN <= v <= i32::MAX
}

/// Every product and difference that the cross product of `a` and `b`
/// computes fits in an `i32`.
pub open spec fn cross_fits(a: Point3, b: Point3) -> bool {
    &&& in_i32(a.y * b.z) && in_i32(a.z * b.y) && in_i32(a.y * b.z - a.z * b.y)
    &&& in_i32(a.z * b.x) && in_i32(a.x * b.z) && in_i32(a.z * b.x - a.x * b.z)
    &&& in_i32(a.x * b.y) && in_i32(a.y * b.x) && in_i32(a.x * b.y - a.y * b.x)
}

/// Cross product of two integer vectors, computed by `cgmath::Vector3::cross`.
///
/// Trusted: `cgmath::Vector3::<i32>::cross` returns
/// `(a.y*b.z - a.z*b.y, a.z*b.x - a.x*b.z, a.x*b.y - a.y*b.x)`; the
/// `requires` rules out the inputs on which one of these overflows.
#[verifier::external_body]
fn cross(a: Point3, b: Point3) -> (c: Point3)
    requires
        cross_fits(a, b),
    ensures
        c == cross_spec(a, b),
{
    let v = cgmath::Vector3::new(a.x, a.y, a.z).cross(cgmath::Vector3::new(b.x, b.y, b.z));
    Point3 { x: v.x, y: v.y, z: v.z }
}

pub open spec fn is_zero(v: Point3) -> bool {
    v.x == 0 && v.y == 0 && v.z == 0
}

/// `v` is one of the six unit vectors along the coordinate axes.
pub open spec fn is_unit_axis(v: Point3) -> bool {
    ||| (v.x == 1 || v.x == -1) && v.y == 0 && v.z == 0
    ||| v.x == 0 && (v.y == 1 || v.y == -1) && v.z == 0
    ||| v.x == 0 && v.y == 0 && (v.z == 1 || v.z == -1)
}

/// The direction of `v`: a unit axis is its own direction, and the zero
/// vector has none (normalising it yields coordinates that are not numbers).
pub open spec fn normalized_spec(v: Point3) -> Option<Point3> {
    if is_zero(v) { None } else { Some(v) }
}

proof fn lemma_unit_product(p: int, q: int)
    by (nonlinear_arith)
    requires
        -1 <= p <= 1,
        -1 <= q <= 1,
    ensures
        -1 <= p * q <= 1,
        p == 0 || q == 0 ==> p * q == 0,
        p * q == if p == 0 || q == 0 { 0int } else if p == q { 1int } else { -1int },
{
}

proof fn lemma_unit_scale(d: int, k: int)
    by (nonlinear_arith)
    requires
        -1 <= d <= 1,
        0 <= k,
    ensures
        -k <= d * k <= k,
{
}

/// The cross product of two unit axes is either zero (when they are parallel)
/// or again a unit axis.
pub proof fn lemma_cross_of_unit_axes(a: Point3, b: Point3)
    requires
        is_unit_axis(a),
        is_unit_axis(b),
    ensures
        cross_fits(a, b),
        is_zero(cross_spec(a, b)) || is_unit_axis(cross_spec(a, b)),
        is_zero(cross_spec(a, b)) <==> (a == b || a == point(-b.x, -b.y, -b.z)),
{
    lemma_unit_product(a.x as int, b.y as int);
    lemma_unit_product(a.x as int, b.z as int);
    lemma_unit_product(a.y as int, b.x as int);
    lemma_unit_product(a.y as int, b.z as int);
    lemma_unit_product(a.z as int, b.x as int);
    lemma_unit_product(a.z as int, b.y as int);
}

/// Direction of `v`, for a `v` that is zero or a unit axis.
fn normalized(v: Point3) -> (n: Option<Point3>)
    requires
        is_zero(v) || is_unit_axis(v),
    ensures
        n == normalized_spec(v),
{
    if v.x == 0 && v.y == 0 && v.z == 0 {
        None
    } else {
        Some(v)
    }
}

pub open spec fn scaled(v: Point3, k: int) -> Point3 {
    point(v.x * k, v.y * k, v.z * k)
}

/// `base + k * dir`, undefined when the direction is.
pub open spec fn offset(base: Point3, dir: Option<Point3>, k: int) -> Option<Point3> {
    match dir {
        Some(d) => Some(point(base.x + k * d.x, base.y + k * d.y, base.z + k * d.z)),
        None => None,
    }
}

/// The helper vector used to find directions perpendicular to `dir`: the
/// `z` axis when the `x` and `y` components of `dir` are both below 0.9 in
/// magnitude (for a unit axis: both zero), the `y` axis otherwise.
pub open spec fn fallback_up(dir: Point3) -> Point3 {
    if dir.x == 0 && dir.y == 0 { pt(0i32, 0i32, 1i32) } else { pt(0i32, 1i32, 0i32) }
}

/// First direction across the arrowhead: `normalize(dir x fallback_up)`.
pub open spec fn arrow_right(dir: Point3) -> Option<Point3> {
    normalized_spec(cross_spec(dir, fallback_up(dir)))
}

/// Second direction across the arrowhead: `normalize(dir x right)`.
pub open spec fn arrow_up(dir: Point3) -> Option<Point3> {
    match arrow_right(dir) {
        Some(r) => normalized_spec(cross_spec(dir, r)),
        None => None,
    }
}

/// The stem of one axis: a segment from the origin to `STEM_LEN * dir`.
pub open spec fn axis_line_spec(dir: Point3, color: UnitColor) -> Seq<Vertex> {
    seq![at(pt(0i32, 0i32, 0i32), color), at(scaled(dir, 80), color)]
}

/// The arrowhead of one axis: four triangles from the tip
/// `(STEM_LEN + ARROW_LEN) * dir` to the base corners `p1 .. p4` around
/// `STEM_LEN * dir`, at distance `ARROW_RADIUS` along `+-right` and `+-up`.
pub open spec fn axis_arrow_spec(dir: Point3, color: UnitColor) -> Seq<Vertex> {
    let tip = Some(scaled(dir, 100));
    let base = scaled(dir, 80);
    let p1 = offset(base, arrow_right(dir), 8);
    let p2 = offset(base, arrow_right(dir), -8);
    let p3 = offset(base, arrow_up(dir), 8);
    let p4 = offset(base, arrow_up(dir), -8);
    let v = |p: Option<Point3>| Vertex { position: p, color };
    seq![
        v(tip), v(p1), v(p3),
        v(tip), v(p3), v(p2),
        v(tip), v(p2), v(p4),
        v(tip), v(p4), v(p1),
    ]
}

fn offset_exec(base: Point3, dir: Option<Point3>, k: i32) -> (p: Option<Point3>)
    requires
        -100 <= base.x <= 100 && -100 <= base.y <= 100 && -100 <= base.z <= 100,
        -8 <= k <= 8,
        dir matches Some(d) ==> is_unit_axis(d),
    ensures
        p == offset(base, dir, k as int),
{
    match dir {
        Some(d) => Some(Point3 { x: base.x + k * d.x, y: base.y + k * d.y, z: base.z + k * d.z }),
        None => None,
    }
}

/// Appends the stem and the arrowhead of the axis along `dir`.
fn add_axis(
    line_vertices: &mut Vec<Vertex>,
    arrow_vertices: &mut Vec<Vertex>,
    dir: Point3,
    color: UnitColor,
)
    requires
        is_unit_axis(dir),
    ensures
        final(line_vertices)@ == old(line_vertices)@ + axis_line_spec(dir, color),
        final(arrow_vertices)@ == old(arrow_vertices)@ + axis_arrow_spec(dir, color),
{
    let stem_len = STEM_LEN;
    let arrow_len = ARROW_LEN;
    let arrow_radius = ARROW_RADIUS;

    proof {
        lemma_unit_scale(dir.x as int, 100);
        lemma_unit_scale(dir.y as int, 100);
        lemma_unit_scale(dir.z as int, 100);
        lemma_unit_scale(dir.x as int, 80);
        lemma_unit_scale(dir.y as int, 80);
        lemma_unit_scale(dir.z as int, 80);
    }
    // Line segment (stem)
    line_vertices.push(Vertex { position: Some(Point3 { x: 0, y: 0, z: 0 }), color });
    line_vertices.push(
        Vertex {
            position: Some(Point3 { x: dir.x * stem_len, y: dir.y * stem_len, z: dir.z * stem_len }),
            color,
        },
    );

    // Arrow tip
    let tip = Point3 {
        x: dir.x * (stem_len + arrow_len),
        y: dir.y * (stem_len + arrow_len),
        z: dir.z * (stem_len + arrow_len),
    };
    let base = Point3 { x: dir.x * stem_len, y: dir.y * stem_len, z: dir.z * stem_len };

    // Find perpendicular vectors. A unit-axis component is below 0.9 in
    // magnitude exactly when it is zero.
    let fallback = if dir.x == 0 && dir.y == 0 {
        Point3 { x: 0, y: 0, z: 1 }
    } else {
        Point3 { x: 0, y: 1, z: 0 }
    };
    proof {
        lemma_cross_of_unit_axes(dir, fallback);
    }
    let right = normalized(cross(dir, fallback));
    let up = match right {
        Some(r) => {
            proof {
                lemma_cross_of_unit_axes(dir, r);
            }
            normalized(cross(dir, r))
        },
        None => None,
    };

    let p1 = offset_exec(base, right, arrow_radius);
    let p2 = offset_exec(base, right, -arrow_radius);
    let p3 = offset_exec(base, up, arrow_radius);
    let p4 = offset_exec(base, up, -arrow_radius);

    // 4 triangles for arrowhead
    let t = Some(tip);
    let ghost before = arrow_vertices@;
    arrow_vertices.push(Vertex { position: t, color });
    arrow_vertices.push(Vertex { position: p1, color });
    arrow_vertices.push(Vertex { position: p3, color });
    arrow_vertices.push(Vertex { position: t, color });
    arrow_vertices.push(Vertex { position: p3, color });
    arrow_vertices.push(Vertex { position: p2, color });
    arrow_vertices.push(Vertex { position: t, color });
    arrow_vertices.push(Vertex { position: p2, color });
    arrow_vertices.push(Vertex { position: p4, color });
    arrow_vertices.push(Vertex { position: t, color });
    arrow_vertices.push(Vertex { position: p4, color });
    arrow_vertices.push(Vertex { position: p1, color });
    assert(arrow_vertices@ =~= before + axis_arrow_spec(dir, color));
    assert(line_vertices@ =~= old(line_vertices)@ + axis_line_spec(dir, color));
}

pub open spec fn axis_x() -> Point3 { pt(1i32, 0i32, 0i32) }
pub open spec fn axis_y() -> Point3 { pt(0i32, 1i32, 0i32) }
pub open spec fn axis_z() -> Point3 { pt(0i32, 0i32, 1i32) }

/// The axis indicator: the stems (a line list) and the arrowheads (a
/// triangle list) of the `x`, `y` and `z` axes, in red, green and blue.
pub fn create_axis_geometry() -> (res: (Vec<Vertex>, Vec<Vertex>))
    ensures
        res.0@ == axis_line_spec(axis_x(), red()) + axis_line_spec(axis_y(), green())
            + axis_line_spec(axis_z(), blue()),
        res.1@ == axis_arrow_spec(axis_x(), red()) + axis_arrow_spec(axis_y(), green())
            + axis_arrow_spec(axis_z(), blue()),
{
    let mut line_vertices: Vec<Vertex> = Vec::new();
    let mut arrow_vertices: Vec<Vertex> = Vec::new();

    add_axis(
        &mut line_vertices,
        &mut arrow_vertices,
        Point3 { x: 1, y: 0, z: 0 },
        UnitColor { r: true, g: false, b: false },
    );  // X
    add_axis(
        &mut line_vertices,
        &mut arrow_vertices,
        Point3 { x: 0, y: 1, z: 0 },
        UnitColor { r: false, g: true, b: false },
    );  // Y
    add_axis(
        &mut line_vertices,
        &mut arrow_vertices,
        Point3 { x: 0, y: 0, z: 1 },
        UnitColor { r: false, g: false, b: true },
    );  // Z
    assert(line_vertices@ =~= axis_line_spec(axis_x(), red()) + axis_line_spec(axis_y(), green())
        + axis_line_spec(axis_z(), blue()));
    assert(arrow_vertices@ =~= axis_arrow_spec(axis_x(), red()) + axis_arrow_spec(axis_y(), green())
        + axis_arrow_spec(axis_z(), blue()));
    (line_vertices, arrow_vertices)
}

pub open spec fn dot(a: Point3, b: Point3) -> int {
    a.x * b.x + a.y * b.y + a.z * b.z
}

pub open spec fn diff(a: Point3, b: Point3) -> Point3 {
    point(a.x - b.x, a.y - b.y, a.z - b.z)
}

/// A base corner of an arrowhead lies in the plane through `base`
/// perpendicular to `dir`, at distance `radius` from `base`.
pub open spec fn is_rim_point(p: Option<Point3>, base: Point3, dir: Point3, radius: int) -> bool {
    &&& p is Some
    &&& dot(diff(p->0, base), dir) == 0
    &&& dot(diff(p->0, base), diff(p->0, base)) == radius * radius
}

/// The four base corners of the arrowhead along `dir`.
pub open spec fn arrow_corners(dir: Point3) -> Seq<Option<Point3>> {
    let base = scaled(dir, 80);
    seq![
        offset(base, arrow_right(dir), 8),
        offset(base, arrow_right(dir), -8),
        offset(base, arrow_up(dir), 8),
        offset(base, arrow_up(dir), -8),
    ]
}

/// Shape of the arrowhead along a unit axis `dir`. Every triangle starts at
/// the tip `100 * dir` and uses base corners from `arrow_corners(dir)`. When
/// the helper vector `fallback_up(dir)` is not parallel to `dir`, the four
/// base corners are distinct points on the circle of radius `ARROW_RADIUS`
/// around the end of the stem, in the plane perpendicular to the axis. When
/// it is parallel, the cross product that should give a perpendicular
/// direction is zero and every base corner is undefined.
pub proof fn lemma_arrowhead_shape(dir: Point3, color: UnitColor)
    requires
        is_unit_axis(dir),
    ensures
        axis_arrow_spec(dir, color).len() == 12,
        forall|k: int| 0 <= k < 4 ==> #[trigger] axis_arrow_spec(dir, color)[3 * k].position
            == Some(scaled(dir, 100)),
        forall|k: int| 0 <= k < 12 ==> #[trigger] axis_arrow_spec(dir, color)[k].color == color,
        forall|k: int| 0 <= k < 12 && k % 3 != 0 ==> arrow_corners(dir).contains(
            #[trigger] axis_arrow_spec(dir, color)[k].position,
        ),
        fallback_up(dir) != dir && fallback_up(dir) != point(-dir.x, -dir.y, -dir.z) ==> {
            &&& forall|i: int| 0 <= i < 4 ==> is_rim_point(
                #[trigger] arrow_corners(dir)[i],
                scaled(dir, 80),
                dir,
                8,
            )
            &&& forall|i: int, j: int| 0 <= i < j < 4 ==> #[trigger] arrow_corners(dir)[i]
                != #[trigger] arrow_corners(dir)[j]
        },
        fallback_up(dir) == dir || fallback_up(dir) == point(-dir.x, -dir.y, -dir.z) ==> forall|i: int|
            0 <= i < 4 ==> #[trigger] arrow_corners(dir)[i] is None,
{
    let s = axis_arrow_spec(dir, color);
    let c = arrow_corners(dir);
    assert forall|k: int| 0 <= k < 4 implies #[trigger] s[3 * k].position == Some(scaled(dir, 100)) by {
        if k == 0 {} else if k == 1 {} else if k == 2 {} else {}
    }
    assert forall|k: int| 0 <= k < 12 && k % 3 != 0 implies c.contains(#[trigger] s[k].position) by {
        if k == 1 { assert(c[0] == s[k].position); }
        else if k == 2 { assert(c[2] == s[k].position); }
        else if k == 4 { assert(c[2] == s[k].position); }
        else if k == 5 { assert(c[1] == s[k].position); }
        else if k == 7 { assert(c[1] == s[k].position); }
        else if k == 8 { assert(c[3] == s[k].position); }
        else if k == 10 { assert(c[3] == s[k].position); }
        else { assert(c[0] == s[k].position); }
    }
    if dir == pt(1i32, 0i32, 0i32) || dir == pt(-1i32, 0i32, 0i32) {
        lemma_arrowhead_directions();
        lemma_x_arrowhead_rims();
        assert forall|i: int| 0 <= i < 4 implies is_rim_point(
            #[trigger] c[i],
            scaled(dir, 80),
            dir,
            8,
        ) by {
            if i == 0 {} else if i == 1 {} else if i == 2 {} else {}
        }
        assert forall|i: int, j: int| 0 <= i < j < 4 implies #[trigger] c[i] != #[trigger] c[j] by {
            if i == 0 {} else if i == 1 {} else {}
        }
    } else {
        lemma_arrowhead_directions();
        assert(dir == pt(0i32, 1i32, 0i32) || dir == pt(0i32, -1i32, 0i32)
            || dir == pt(0i32, 0i32, 1i32) || dir == pt(0i32, 0i32, -1i32));
    }
}

/// The base corners of the arrowheads along `+x` and `-x`.
proof fn lemma_x_arrowhead_rims()
    ensures
        scaled(pt(1i32, 0i32, 0i32), 80) == pt(80i32, 0i32, 0i32),
        arrow_corners(pt(1i32, 0i32, 0i32)) == seq![
            Some(pt(80i32, 0i32, 8i32)), Some(pt(80i32, 0i32, -8i32)),
            Some(pt(80i32, -8i32, 0i32)), Some(pt(80i32, 8i32, 0i32)),
        ],
        is_rim_point(Some(pt(80i32, 0i32, 8i32)), pt(80i32, 0i32, 0i32), pt(1i32, 0i32, 0i32), 8),
        is_rim_point(Some(pt(80i32, 0i32, -8i32)), pt(80i32, 0i32, 0i32), pt(1i32, 0i32, 0i32), 8),
        is_rim_point(Some(pt(80i32, -8i32, 0i32)), pt(80i32, 0i32, 0i32), pt(1i32, 0i32, 0i32), 8),
        is_rim_point(Some(pt(80i32, 8i32, 0i32)), pt(80i32, 0i32, 0i32), pt(1i32, 0i32, 0i32), 8),
        scaled(pt(-1i32, 0i32, 0i32), 80) == pt(-80i32, 0i32, 0i32),
        arrow_corners(pt(-1i32, 0i32, 0i32)) == seq![
            Some(pt(-80i32, 0i32, -8i32)), Some(pt(-80i32, 0i32, 8i32)),
            Some(pt(-80i32, -8i32, 0i32)), Some(pt(-80i32, 8i32, 0i32)),
        ],
        is_rim_point(Some(pt(-80i32, 0i32, -8i32)), pt(-80i32, 0i32, 0i32), pt(-1i32, 0i32, 0i32), 8),
        is_rim_point(Some(pt(-80i32, 0i32, 8i32)), pt(-80i32, 0i32, 0i32), pt(-1i32, 0i32, 0i32), 8),
        is_rim_point(Some(pt(-80i32, -8i32, 0i32)), pt(-80i32, 0i32, 0i32), pt(-1i32, 0i32, 0i32), 8),
        is_rim_point(Some(pt(-80i32, 8i32, 0i32)), pt(-80i32, 0i32, 0i32), pt(-1i32, 0i32, 0i32), 8),
{
    lemma_arrowhead_directions();
    assert(arrow_corners(pt(1i32, 0i32, 0i32)) =~= seq![
        Some(pt(80i32, 0i32, 8i32)), Some(pt(80i32, 0i32, -8i32)),
        Some(pt(80i32, -8i32, 0i32)), Some(pt(80i32, 8i32, 0i32)),
    ]);
    assert(arrow_corners(pt(-1i32, 0i32, 0i32)) =~= seq![
        Some(pt(-80i32, 0i32, -8i32)), Some(pt(-80i32, 0i32, 8i32)),
        Some(pt(-80i32, -8i32, 0i32)), Some(pt(-80i32, 8i32, 0i32)),
    ]);
}

/// The directions across the arrowhead for each of the six unit axes.
proof fn lemma_arrowhead_directions()
    ensures
        arrow_right(pt(1i32, 0i32, 0i32)) == Some(pt(0i32, 0i32, 1i32)),
        arrow_up(pt(1i32, 0i32, 0i32)) == Some(pt(0i32, -1i32, 0i32)),
        arrow_right(pt(-1i32, 0i32, 0i32)) == Some(pt(0i32, 0i32, -1i32)),
        arrow_up(pt(-1i32, 0i32, 0i32)) == Some(pt(0i32, -1i32, 0i32)),
        arrow_right(pt(0i32, 1i32, 0i32)) is None,
        arrow_right(pt(0i32, -1i32, 0i32)) is None,
        arrow_right(pt(0i32, 0i32, 1i32)) is None,
        arrow_right(pt(0i32, 0i32, -1i32)) is None,
{
    assert(cross_spec(pt(1i32, 0i32, 0i32), pt(0i32, 1i32, 0i32)) == pt(0i32, 0i32, 1i32));
    assert(cross_spec(pt(1i32, 0i32, 0i32), pt(0i32, 0i32, 1i32)) == pt(0i32, -1i32, 0i32));
    assert(cross_spec(pt(-1i32, 0i32, 0i32), pt(0i32, 1i32, 0i32)) == pt(0i32, 0i32, -1i32));
    assert(cross_spec(pt(-1i32, 0i32, 0i32), pt(0i32, 0i32, -1i32)) == pt(0i32, -1i32, 0i32));
    assert(is_zero(cross_spec(pt(0i32, 1i32, 0i32), pt(0i32, 1i32, 0i32))));
    assert(is_zero(cross_spec(pt(0i32, -1i32, 0i32), pt(0i32, 1i32, 0i32))));
    assert(is_zero(cross_spec(pt(0i32, 0i32, 1i32), pt(0i32, 0i32, 1i32))));
    assert(is_zero(cross_spec(pt(0i32, 0i32, -1i32), pt(0i32, 0i32, 1i32))));
}

/// The axis indicator's three arrowheads: the `x` arrowhead is a proper
/// pyramid with base corners `(80, 0, 8)`, `(80, 0, -8)`, `(80, -8, 0)` and
/// `(80, 8, 0)`; for the `y` and `z` axes the helper vector coincides with
/// the axis itself, so their base corners are undefined.
pub proof fn lemma_axis_arrowheads()
    ensures
        arrow_right(axis_x()) == Some(pt(0i32, 0i32, 1i32)),
        arrow_up(axis_x()) == Some(pt(0i32, -1i32, 0i32)),
        fallback_up(axis_y()) == axis_y(),
        fallback_up(axis_z()) == axis_z(),
        arrow_right(axis_y()) is None,
        arrow_right(axis_z()) is None,
        arrow_corners(axis_x()) == seq![
            Some(pt(80i32, 0i32, 8i32)), Some(pt(80i32, 0i32, -8i32)),
            Some(pt(80i32, -8i32, 0i32)), Some(pt(80i32, 8i32, 0i32)),
        ],
{
    lemma_arrowhead_directions();
    lemma_x_arrowhead_rims();
}

// ---------------------------------------------------------------------------
// Index buffer bytes
// ---------------------------------------------------------------------------

/// `values` laid out as bytes, least significant byte of each value first.
pub open spec fn le_bytes(values: Seq<u16>) -> Seq<u8> {
    Seq::new(2 * values.len(), |i: int| if i % 2 == 0 {
        (values[i / 2] % 256) as u8
    } else {
        (values[i / 2] / 256) as u8
    })
}

/// `values` laid out as bytes, most significant byte of each value first.
pub open spec fn be_bytes(values: Seq<u16>) -> Seq<u8> {
    Seq::new(2 * values.len(), |i: int| if i % 2 == 0 {
        (values[i / 2] / 256) as u8
    } else {
        (values[i / 2] % 256) as u8
    })
}

/// The memory of a `u16` slice, as bytes, through `bytemuck::cast_slice`.
///
/// Trusted: `bytemuck::cast_slice::<u16, u8>` never fails (a byte has no
/// alignment requirement and every length is a whole number of bytes) and
/// returns the slice's own memory, two bytes per value in the machine's byte
/// order. Which of the two byte orders that is depends on the machine, so
/// only "one of the two" is stated.
#[verifier::external_body]
fn u16_slice_bytes(values: &[u16]) -> (bytes: Vec<u8>)
    ensures
        bytes@ == le_bytes(values@) || bytes@ == be_bytes(values@),
{
    bytemuck::cast_slice::<u16, u8>(values).to_vec()
}

/// The cube's index list as uploaded to the index buffer: the indices of
/// `cube_indices`, two bytes each, in the machine's byte order.
pub fn cube_index_bytes() -> (bytes: Vec<u8>)
    ensures
        bytes@.len() == 72,
        bytes@ == le_bytes(cube_index_seq()) || bytes@ == be_bytes(cube_index_seq()),
{
    let indices = cube_indices();
    assert(indices@ =~= cube_index_seq());
    u16_slice_bytes(indices.as_slice())
}

} // verus!
