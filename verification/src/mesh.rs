//! Triangulation of polygon meshes into flat triangle lists.
//!
//! A mesh is given by its faces, each a list of corners that index into the
//! mesh's position and normal arrays. Triangles are kept as they are,
//! quadrilaterals are split along their first diagonal, and every other
//! face with at least three corners is split into a fan around its first
//! corner. Faces with fewer than three corners are dropped.
use vstd::prelude::*;

verus! {

/// One corner of a face: an index into the positions and, optionally, an
/// index into the normals.
#[derive(Clone, Copy, PartialEq, Eq, Structural, Debug)]
pub struct Corner {
    pub pos: usize,
    pub nor: Option<usize>,
}

/// The faces of a polygon mesh, grouped by their number of corners.
pub struct PolygonFaces {
    pub tri_faces: Vec<[Corner; 3]>,
    pub quad_faces: Vec<[Corner; 4]>,
    pub other_faces: Vec<Vec<Corner>>,
}

/// The corners of a list of triangles, three per triangle.
pub open spec fn tri_corners(tris: Seq<[Corner; 3]>) -> Seq<Corner>
    decreases tris.len(),
{
    if tris.len() == 0 {
        seq![]
    } else {
        let t = tris.last();
        tri_corners(tris.drop_last()) + seq![t@[0], t@[1], t@[2]]
    }
}

/// The corners of a list of quadrilaterals, each split into the triangles
/// `(0, 1, 2)` and `(0, 2, 3)`.
pub open spec fn quad_corners(quads: Seq<[Corner; 4]>) -> Seq<Corner>
    decreases quads.len(),
{
    if quads.len() == 0 {
        seq![]
    } else {
        let q = quads.last();
        quad_corners(quads.drop_last()) + seq![q@[0], q@[1], q@[2], q@[0], q@[2], q@[3]]
    }
}

/// The fan triangulation of a face: triangles `(0, i, i + 1)` for
/// `i = 1 .. len - 2`; nothing for a face with fewer than three corners.
pub open spec fn fan(face: Seq<Corner>) -> Seq<Corner> {
    if face.len() < 3 {
        seq![]
    } else {
        Seq::new(
            (3 * (face.len() - 2)) as nat,
            |j: int|
                if j % 3 == 0 {
                    face[0]
                } else if j % 3 == 1 {
                    face[j / 3 + 1]
                } else {
                    face[j / 3 + 2]
                },
        )
    }
}

/// The fans of a list of general faces, one after the other.
pub open spec fn fan_corners(faces: Seq<Vec<Corner>>) -> Seq<Corner>
    decreases faces.len(),
{
    if faces.len() == 0 {
        seq![]
    } else {
        fan_corners(faces.drop_last()) + fan(faces.last()@)
    }
}

/// The triangle list of a mesh: its triangles, then its quadrilaterals, then
/// its other faces.
pub open spec fn triangulation(m: &PolygonFaces) -> Seq<Corner> {
    tri_corners(m.tri_faces@) + quad_corners(m.quad_faces@) + fan_corners(m.other_faces@)
}

/// Number of triangle-list vertices contributed by general faces.
pub open spec fn fan_vertex_count(faces: Seq<Vec<Corner>>) -> nat
    decreases faces.len(),
{
    if faces.len() == 0 {
        0
    } else {
        let n = faces.last()@.len();
        fan_vertex_count(faces.drop_last()) + if n >= 3 { (3 * (n - 2)) as nat } else { 0 }
    }
}

/// Number of triangle-list vertices of a mesh: three per triangle, six per
/// quadrilateral and `3 * (n - 2)` per other face of `n >= 3` corners.
pub open spec fn vertex_count(m: &PolygonFaces) -> nat {
    3 * m.tri_faces@.len() + 6 * m.quad_faces@.len() + fan_vertex_count(m.other_faces@)
}

proof fn lemma_fan_corners_prefix(faces: Seq<Vec<Corner>>, i: int)
    requires
        0 <= i < faces.len(),
    ensures
        faces.take(i + 1).drop_last() == faces.take(i),
        faces.take(i + 1).last() == faces[i],
{
    assert(faces.take(i + 1).drop_last() =~= faces.take(i));
}

/// Splits the faces of a mesh into a triangle list. Returns the corners of
/// the triangles, three per triangle, and the number of triangles.
pub fn triangulate(mesh: &PolygonFaces) -> (res: (Vec<Corner>, usize))
    ensures
        res.0@ == triangulation(mesh),
        res.1 == res.0@.len() / 3,
{
    let mut vertices: Vec<Corner> = Vec::new();

    let n_tri = mesh.tri_faces.len();
    for i in 0..n_tri
        invariant
            n_tri == mesh.tri_faces@.len(),
            vertices@ == tri_corners(mesh.tri_faces@.take(i as int)),
    {
        let tri = mesh.tri_faces[i];
        proof {
            assert(mesh.tri_faces@.take(i + 1).drop_last() =~= mesh.tri_faces@.take(i as int));
        }
        vertices.push(tri[0]);
        vertices.push(tri[1]);
        vertices.push(tri[2]);
        assert(vertices@ =~= tri_corners(mesh.tri_faces@.take(i + 1)));
    }
    assert(mesh.tri_faces@.take(n_tri as int) =~= mesh.tri_faces@);
    let ghost after_tris = vertices@;

    let n_quad = mesh.quad_faces.len();
    for i in 0..n_quad
        invariant
            n_quad == mesh.quad_faces@.len(),
            vertices@ == after_tris + quad_corners(mesh.quad_faces@.take(i as int)),
    {
        let quad = mesh.quad_faces[i];
        proof {
            assert(mesh.quad_faces@.take(i + 1).drop_last() =~= mesh.quad_faces@.take(i as int));
        }
        vertices.push(quad[0]);
        vertices.push(quad[1]);
        vertices.push(quad[2]);
        vertices.push(quad[0]);
        vertices.push(quad[2]);
        vertices.push(quad[3]);
        assert(vertices@ =~= after_tris + quad_corners(mesh.quad_faces@.take(i + 1)));
    }
    assert(mesh.quad_faces@.take(n_quad as int) =~= mesh.quad_faces@);
    let ghost after_quads = vertices@;

    let n_other = mesh.other_faces.len();
    for i in 0..n_other
        invariant
            n_other == mesh.other_faces@.len(),
            vertices@ == after_quads + fan_corners(mesh.other_faces@.take(i as int)),
    {
        let face = &mesh.other_faces[i];
        proof {
            lemma_fan_corners_prefix(mesh.other_faces@, i as int);
        }
        let ghost before = vertices@;
        let len = face.len();
        if len >= 3 {
            let first = face[0];
            for k in 1..len - 1
                invariant
                    len == face@.len(),
                    len >= 3,
                    first == face@[0],
                    1 <= k <= len - 1,
                    vertices@ == before + fan(face@).take(3 * (k - 1)),
            {
                vertices.push(first);
                vertices.push(face[k]);
                vertices.push(face[k + 1]);
                proof {
                    let f = fan(face@);
                    let j = 3 * (k - 1);
                    assert(j / 3 == k - 1 && j % 3 == 0);
                    assert((j + 1) / 3 == k - 1 && (j + 1) % 3 == 1);
                    assert((j + 2) / 3 == k - 1 && (j + 2) % 3 == 2);
                    assert(f[j] == face@[0] && f[j + 1] == face@[k as int] && f[j + 2] == face@[k + 1]);
                    assert(f.take(3 * k) =~= f.take(j) + seq![f[j], f[j + 1], f[j + 2]]);
                }
                assert(vertices@ =~= before + fan(face@).take(3 * k));
            }
            assert(fan(face@).take(3 * (len - 2)) =~= fan(face@));
        } else {
            assert(fan(face@) =~= seq![]);
            assert(vertices@ =~= before + fan(face@));
        }
        assert(vertices@ =~= after_quads + fan_corners(mesh.other_faces@.take(i + 1)));
    }
    assert(mesh.other_faces@.take(n_other as int) =~= mesh.other_faces@);
    assert(vertices@ =~= triangulation(mesh));

    let triangles = vertices.len() / 3;
    (vertices, triangles)
}

proof fn lemma_tri_corners_len(tris: Seq<[Corner; 3]>)
    ensures
        tri_corners(tris).len() == 3 * tris.len(),
    decreases tris.len(),
{
    if tris.len() > 0 {
        lemma_tri_corners_len(tris.drop_last());
    }
}

proof fn lemma_quad_corners_len(quads: Seq<[Corner; 4]>)
    ensures
        quad_corners(quads).len() == 6 * quads.len(),
    decreases quads.len(),
{
    if quads.len() > 0 {
        lemma_quad_corners_len(quads.drop_last());
    }
}

proof fn lemma_fan_corners_len(faces: Seq<Vec<Corner>>)
    ensures
        fan_corners(faces).len() == fan_vertex_count(faces),
        fan_vertex_count(faces) % 3 == 0,
    decreases faces.len(),
{
    if faces.len() > 0 {
        lemma_fan_corners_len(faces.drop_last());
    }
}

/// The number of vertices that `triangulated_vertex_count` reports for a
/// mesh is the length of the triangle list that `triangulate` produces, and
/// that length is a whole number of triangles: colours computed per vertex
/// from the count line up one for one with the triangulated vertices.
pub proof fn lemma_triangulation_len(m: &PolygonFaces)
    ensures
        triangulation(m).len() == vertex_count(m),
        vertex_count(m) % 3 == 0,
{
    lemma_tri_corners_len(m.tri_faces@);
    lemma_quad_corners_len(m.quad_faces@);
    lemma_fan_corners_len(m.other_faces@);
}

proof fn lemma_tri_corners_at(tris: Seq<[Corner; 3]>, k: int, j: int)
    requires
        0 <= k < tris.len(),
        0 <= j < 3,
    ensures
        tri_corners(tris)[3 * k + j] == tris[k]@[j],
    decreases tris.len(),
{
    lemma_tri_corners_len(tris.drop_last());
    if k < tris.len() - 1 {
        lemma_tri_corners_at(tris.drop_last(), k, j);
    }
}

proof fn lemma_quad_corners_at(quads: Seq<[Corner; 4]>, k: int)
    requires
        0 <= k < quads.len(),
    ensures
        quad_corners(quads)[6 * k] == quads[k]@[0],
        quad_corners(quads)[6 * k + 1] == quads[k]@[1],
        quad_corners(quads)[6 * k + 2] == quads[k]@[2],
        quad_corners(quads)[6 * k + 3] == quads[k]@[0],
        quad_corners(quads)[6 * k + 4] == quads[k]@[2],
        quad_corners(quads)[6 * k + 5] == quads[k]@[3],
    decreases quads.len(),
{
    lemma_quad_corners_len(quads.drop_last());
    if k < quads.len() - 1 {
        lemma_quad_corners_at(quads.drop_last(), k);
    }
}

/// The fans of the first `i` faces come first in the fans of all faces.
proof fn lemma_fan_corners_prefix_at(faces: Seq<Vec<Corner>>, i: int, x: int)
    requires
        0 <= i <= faces.len(),
        0 <= x < fan_corners(faces.take(i)).len(),
    ensures
        fan_corners(faces).len() >= fan_corners(faces.take(i)).len(),
        fan_corners(faces)[x] == fan_corners(faces.take(i))[x],
    decreases faces.len() - i,
{
    if i < faces.len() {
        lemma_fan_corners_prefix(faces, i);
        lemma_fan_corners_prefix_at(faces, i + 1, x);
    } else {
        assert(faces.take(i) =~= faces);
    }
}

proof fn lemma_fan_at(face: Seq<Corner>, t: int)
    requires
        0 <= t,
        t + 2 < face.len(),
    ensures
        fan(face).len() == 3 * (face.len() - 2),
        fan(face)[3 * t] == face[0],
        fan(face)[3 * t + 1] == face[t + 1],
        fan(face)[3 * t + 2] == face[t + 2],
{
    assert((3 * t) % 3 == 0 && (3 * t) / 3 == t) by (nonlinear_arith)
        requires 0 <= t;
    assert((3 * t + 1) % 3 == 1 && (3 * t + 1) / 3 == t) by (nonlinear_arith)
        requires 0 <= t;
    assert((3 * t + 2) % 3 == 2 && (3 * t + 2) / 3 == t) by (nonlinear_arith)
        requires 0 <= t;
}

/// Every triangle of the mesh appears in the triangle list unchanged, at its
/// own place: corner `j` of triangle `k` is entry `3 * k + j`, so each
/// triangle keeps its corner order and winding.
pub proof fn lemma_triangles_kept(m: &PolygonFaces, k: int, j: int)
    requires
        0 <= k < m.tri_faces@.len(),
        0 <= j < 3,
    ensures
        triangulation(m)[3 * k + j] == m.tri_faces@[k]@[j],
{
    lemma_tri_corners_len(m.tri_faces@);
    lemma_quad_corners_len(m.quad_faces@);
    lemma_tri_corners_at(m.tri_faces@, k, j);
}

/// Quadrilateral `k` of the mesh `(a, b, c, d)` becomes the triangles
/// `(a, b, c)` and `(a, c, d)`, which keep its winding, right after the
/// triangles and the quadrilaterals before it.
pub proof fn lemma_quads_split(m: &PolygonFaces, k: int)
    requires
        0 <= k < m.quad_faces@.len(),
    ensures
        ({
            let base = 3 * m.tri_faces@.len() + 6 * k;
            let q = m.quad_faces@[k]@;
            &&& triangulation(m)[base] == q[0]
            &&& triangulation(m)[base + 1] == q[1]
            &&& triangulation(m)[base + 2] == q[2]
            &&& triangulation(m)[base + 3] == q[0]
            &&& triangulation(m)[base + 4] == q[2]
            &&& triangulation(m)[base + 5] == q[3]
        }),
{
    lemma_tri_corners_len(m.tri_faces@);
    lemma_quad_corners_len(m.quad_faces@);
    lemma_quad_corners_at(m.quad_faces@, k);
}

/// Triangle `t` of the fan of general face `i` is `(f[0], f[t + 1], f[t + 2])`,
/// which keeps the face's winding; it comes after the triangles, the
/// quadrilaterals and the fans of the faces before face `i`.
pub proof fn lemma_faces_fanned(m: &PolygonFaces, i: int, t: int)
    requires
        0 <= i < m.other_faces@.len(),
        0 <= t,
        t + 2 < m.other_faces@[i]@.len(),
    ensures
        ({
            let base = 3 * m.tri_faces@.len() + 6 * m.quad_faces@.len()
                + fan_vertex_count(m.other_faces@.take(i)) + 3 * t;
            let f = m.other_faces@[i]@;
            &&& triangulation(m)[base] == f[0]
            &&& triangulation(m)[base + 1] == f[t + 1]
            &&& triangulation(m)[base + 2] == f[t + 2]
        }),
{
    let faces = m.other_faces@;
    let f = faces[i]@;
    lemma_tri_corners_len(m.tri_faces@);
    lemma_quad_corners_len(m.quad_faces@);
    lemma_fan_corners_prefix(faces, i);
    lemma_fan_corners_len(faces.take(i));
    lemma_fan_corners_len(faces);
    lemma_fan_at(f, t);
    let before = fan_corners(faces.take(i));
    let upto = fan_corners(faces.take(i + 1));
    assert(upto == before + fan(f));
    let off = before.len() as int;
    lemma_fan_corners_prefix_at(faces, i + 1, off + 3 * t);
    lemma_fan_corners_prefix_at(faces, i + 1, off + 3 * t + 1);
    lemma_fan_corners_prefix_at(faces, i + 1, off + 3 * t + 2);
}

proof fn lemma_fan_vertex_count_prefix(faces: Seq<Vec<Corner>>, i: int)
    requires
        0 <= i <= faces.len(),
    ensures
        fan_vertex_count(faces.take(i)) <= fan_vertex_count(faces),
    decreases faces.len() - i,
{
    if i < faces.len() {
        lemma_fan_vertex_count_prefix(faces, i + 1);
        assert(faces.take(i + 1).drop_last() =~= faces.take(i));
    } else {
        assert(faces.take(i) =~= faces);
    }
}

/// Number of vertices in the triangle list of a mesh (see `triangulate`),
/// computed from the face sizes alone.
pub fn triangulated_vertex_count(mesh: &PolygonFaces) -> (total: usize)
    requires
        vertex_count(mesh) <= usize::MAX,
    ensures
        total == vertex_count(mesh),
{
    let mut count: usize = 0;
    count += mesh.tri_faces.len() * 3;
    count += mesh.quad_faces.len() * 6;
    let n_other = mesh.other_faces.len();
    for i in 0..n_other
        invariant
            n_other == mesh.other_faces@.len(),
            vertex_count(mesh) <= usize::MAX,
            count == 3 * mesh.tri_faces@.len() + 6 * mesh.quad_faces@.len()
                + fan_vertex_count(mesh.other_faces@.take(i as int)),
    {
        proof {
            lemma_fan_corners_prefix(mesh.other_faces@, i as int);
            lemma_fan_vertex_count_prefix(mesh.other_faces@, i + 1);
        }
        let len = mesh.other_faces[i].len();
        if len >= 3 {
            count += (len - 2) * 3;
        }
    }
    assert(mesh.other_faces@.take(n_other as int) =~= mesh.other_faces@);
    count
}

/// Number of vertices in the triangle list of a mesh, or `None` where that
/// number does not fit in a `usize`.
pub fn checked_vertex_count(mesh: &PolygonFaces) -> (total: Option<usize>)
    ensures
        match total {
            Some(t) => t == vertex_count(mesh),
            None => vertex_count(mesh) > usize::MAX,
        },
{
    let tris = match mesh.tri_faces.len().checked_mul(3) {
        Some(t) => t,
        None => return None,
    };
    let quads = match mesh.quad_faces.len().checked_mul(6) {
        Some(q) => q,
        None => {
            proof { lemma_fan_vertex_count_prefix(mesh.other_faces@, 0); }
            return None;
        },
    };
    let mut count: usize = match tris.checked_add(quads) {
        Some(c) => c,
        None => {
            proof { lemma_fan_vertex_count_prefix(mesh.other_faces@, 0); }
            return None;
        },
    };
    proof { assert(mesh.other_faces@.take(0) =~= Seq::<Vec<Corner>>::empty()); }
    let n_other = mesh.other_faces.len();
    for i in 0..n_other
        invariant
            n_other == mesh.other_faces@.len(),
            count == 3 * mesh.tri_faces@.len() + 6 * mesh.quad_faces@.len()
                + fan_vertex_count(mesh.other_faces@.take(i as int)),
    {
        proof {
            lemma_fan_corners_prefix(mesh.other_faces@, i as int);
        }
        let len = mesh.other_faces[i].len();
        if len >= 3 {
            let added = match (len - 2).checked_mul(3) {
                Some(a) => a,
                None => {
                    proof { lemma_fan_vertex_count_prefix(mesh.other_faces@, i + 1); }
                    return None;
                },
            };
            count = match count.checked_add(added) {
                Some(c) => c,
                None => {
                    proof { lemma_fan_vertex_count_prefix(mesh.other_faces@, i + 1); }
                    return None;
                },
            };
        }
    }
    assert(mesh.other_faces@.take(n_other as int) =~= mesh.other_faces@);
    Some(count)
}

/// Looks up the position and the normal of every corner of a triangle list.
/// A corner without a normal index gets `fallback_normal`.
pub fn flatten_corners<T: Copy>(
    corners: &Vec<Corner>,
    positions: &Vec<T>,
    normals: &Vec<T>,
    fallback_normal: T,
) -> (res: (Vec<T>, Vec<T>))
    requires
        forall|i: int| 0 <= i < corners@.len() ==> #[trigger] corners@[i].pos < positions@.len(),
        forall|i: int|
            0 <= i < corners@.len() ==> (#[trigger] corners@[i].nor matches Some(n) ==> n
                < normals@.len()),
    ensures
        res.0@.len() == corners@.len(),
        res.1@.len() == corners@.len(),
        forall|i: int| 0 <= i < corners@.len() ==> #[trigger] res.0@[i] == positions@[corners@[i].pos as int],
        forall|i: int|
            0 <= i < corners@.len() ==> #[trigger] res.1@[i] == match corners@[i].nor {
                Some(n) => normals@[n as int],
                None => fallback_normal,
            },
{
    let mut flat_positions: Vec<T> = Vec::new();
    let mut flat_normals: Vec<T> = Vec::new();
    let n = corners.len();
    for i in 0..n
        invariant
            n == corners@.len(),
            forall|j: int| 0 <= j < corners@.len() ==> #[trigger] corners@[j].pos < positions@.len(),
            forall|j: int|
                0 <= j < corners@.len() ==> (#[trigger] corners@[j].nor matches Some(m) ==> m
                    < normals@.len()),
            flat_positions@.len() == i,
            flat_normals@.len() == i,
            forall|j: int| 0 <= j < i ==> #[trigger] flat_positions@[j] == positions@[corners@[j].pos as int],
            forall|j: int|
                0 <= j < i ==> #[trigger] flat_normals@[j] == match corners@[j].nor {
                    Some(m) => normals@[m as int],
                    None => fallback_normal,
                },
    {
        let c = corners[i];
        flat_positions.push(positions[c.pos]);
        let nor = match c.nor {
            Some(ni) => normals[ni],
            None => fallback_normal,
        };
        flat_normals.push(nor);
    }
    (flat_positions, flat_normals)
}

} // verus!
