use step_viewer_core::mesh::{
    checked_vertex_count, flatten_corners, triangulate, triangulated_vertex_count, Corner,
    PolygonFaces,
};

fn c(pos: usize, nor: Option<usize>) -> Corner {
    Corner { pos, nor }
}

fn sample_mesh() -> PolygonFaces {
    PolygonFaces {
        tri_faces: vec![[c(0, Some(0)), c(1, Some(1)), c(2, None)]],
        quad_faces: vec![[c(0, None), c(1, None), c(2, None), c(3, None)]],
        other_faces: vec![
            vec![c(0, None), c(1, None), c(2, None), c(3, None), c(4, None)],
            vec![c(5, None), c(6, None)],
            vec![c(7, None), c(8, None), c(9, None)],
        ],
    }
}

#[test]
fn triangulate_splits_quads_and_fans() {
    let (corners, triangles) = triangulate(&sample_mesh());
    let pos: Vec<usize> = corners.iter().map(|c| c.pos).collect();
    assert_eq!(
        pos,
        vec![
            0, 1, 2, // triangle
            0, 1, 2, 0, 2, 3, // quad
            0, 1, 2, 0, 2, 3, 0, 3, 4, // pentagon fan
            7, 8, 9, // triangle given as a general face; the two-corner face is dropped
        ]
    );
    assert_eq!(triangles, 7);
    assert_eq!(corners[0].nor, Some(0));
    assert_eq!(corners[2].nor, None);
}

#[test]
fn vertex_count_matches_triangulation() {
    let mesh = sample_mesh();
    assert_eq!(triangulated_vertex_count(&mesh), triangulate(&mesh).0.len());
    assert_eq!(triangulated_vertex_count(&mesh), 21);
}

#[test]
fn empty_mesh_has_no_triangles() {
    let mesh = PolygonFaces { tri_faces: vec![], quad_faces: vec![], other_faces: vec![vec![]] };
    assert_eq!(triangulate(&mesh), (vec![], 0));
    assert_eq!(triangulated_vertex_count(&mesh), 0);
}

#[test]
fn flatten_looks_up_positions_and_normals() {
    let corners = vec![c(1, Some(0)), c(0, None), c(1, Some(1))];
    let positions = vec![[0.0f32, 0.0, 0.0], [1.0, 2.0, 3.0]];
    let normals = vec![[1.0f32, 0.0, 0.0], [0.0, 1.0, 0.0]];
    let (p, n) = flatten_corners(&corners, &positions, &normals, [0.0, 0.0, 1.0]);
    assert_eq!(p, vec![[1.0, 2.0, 3.0], [0.0, 0.0, 0.0], [1.0, 2.0, 3.0]]);
    assert_eq!(n, vec![[1.0, 0.0, 0.0], [0.0, 0.0, 1.0], [0.0, 1.0, 0.0]]);
}

#[test]
fn checked_vertex_count_of_a_mesh() {
    assert_eq!(checked_vertex_count(&sample_mesh()), Some(21));
    let empty = PolygonFaces { tri_faces: vec![], quad_faces: vec![], other_faces: vec![] };
    assert_eq!(checked_vertex_count(&empty), Some(0));
}
