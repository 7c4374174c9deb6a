use step_viewer_core::geometry::{
    create_axis_geometry, create_cube_vertices, cube_index_bytes, cube_indices, vertex, Point3,
    UnitColor, Vertex,
};

const RED: UnitColor = UnitColor { r: true, g: false, b: false };
const GREEN: UnitColor = UnitColor { r: false, g: true, b: false };
const BLUE: UnitColor = UnitColor { r: false, g: false, b: true };

fn p(x: i32, y: i32, z: i32) -> Option<Point3> {
    Some(Point3 { x, y, z })
}

#[test]
fn cube_indices_are_two_triangles_per_face() {
    let indices = cube_indices();
    assert_eq!(indices.len(), 36);
    assert_eq!(&indices[0..6], &[0, 1, 2, 0, 2, 3]);
    assert_eq!(&indices[6..12], &[4, 5, 6, 4, 6, 7]);
    assert_eq!(&indices[30..36], &[20, 21, 22, 20, 22, 23]);
    assert!(indices.iter().all(|&i| i < 24));
}

#[test]
fn vertex_keeps_coordinates_and_color() {
    let v = vertex([-1, 0, 1], GREEN);
    assert_eq!(v, Vertex { position: p(-1, 0, 1), color: GREEN });
}

#[test]
fn cube_vertices_are_face_corners() {
    let v = create_cube_vertices();
    assert_eq!(v.len(), 24);
    assert_eq!(v[0], Vertex { position: p(-1, -1, 1), color: RED });
    assert_eq!(v[10], Vertex { position: p(1, 1, 1), color: BLUE });
    assert_eq!(v[23].position, p(-1, -1, 1));
    assert_eq!(v[23].color, UnitColor { r: true, g: false, b: true });
    for (i, vert) in v.iter().enumerate() {
        let q = vert.position.unwrap();
        assert!([q.x, q.y, q.z].iter().all(|c| *c == 1 || *c == -1));
        // the four vertices of a face share its colour
        assert_eq!(vert.color, v[i - i % 4].color);
    }
}

#[test]
fn cube_triangles_stay_on_one_face() {
    let v = create_cube_vertices();
    let indices = cube_indices();
    for (t, tri) in indices.chunks(3).enumerate() {
        for &i in tri {
            assert_eq!(i as usize / 4, t / 2);
            assert_eq!(v[i as usize].color, v[tri[0] as usize].color);
        }
        assert_ne!(tri[0], tri[1]);
        assert_ne!(tri[1], tri[2]);
    }
}

#[test]
fn cube_index_bytes_are_the_indices_in_machine_order() {
    let bytes = cube_index_bytes();
    let expected: Vec<u8> = cube_indices().iter().flat_map(|i| i.to_ne_bytes()).collect();
    assert_eq!(bytes.len(), 72);
    assert_eq!(bytes, expected);
    // index 5 is 3 = 0x0003 in two bytes, one of them zero
    assert_eq!(bytes[10] as u16 + bytes[11] as u16, 3);
}

#[test]
fn axis_lines_run_from_origin_along_each_axis() {
    let (lines, _) = create_axis_geometry();
    assert_eq!(
        lines,
        vec![
            Vertex { position: p(0, 0, 0), color: RED },
            Vertex { position: p(80, 0, 0), color: RED },
            Vertex { position: p(0, 0, 0), color: GREEN },
            Vertex { position: p(0, 80, 0), color: GREEN },
            Vertex { position: p(0, 0, 0), color: BLUE },
            Vertex { position: p(0, 0, 80), color: BLUE },
        ]
    );
}

#[test]
fn x_arrowhead_is_a_pyramid_around_the_axis() {
    let (_, arrows) = create_axis_geometry();
    assert_eq!(arrows.len(), 36);
    let tip = p(100, 0, 0);
    let (p1, p2, p3, p4) = (p(80, 0, 8), p(80, 0, -8), p(80, -8, 0), p(80, 8, 0));
    let expected = [tip, p1, p3, tip, p3, p2, tip, p2, p4, tip, p4, p1];
    for k in 0..12 {
        assert_eq!(arrows[k], Vertex { position: expected[k], color: RED });
    }
}

#[test]
fn y_and_z_arrowheads_have_undefined_base_corners() {
    let (_, arrows) = create_axis_geometry();
    for k in 12..24 {
        assert_eq!(arrows[k].color, GREEN);
        if k % 3 == 0 {
            assert_eq!(arrows[k].position, p(0, 100, 0));
        } else {
            assert_eq!(arrows[k].position, None);
        }
    }
    for k in 24..36 {
        assert_eq!(arrows[k].color, BLUE);
        if k % 3 == 0 {
            assert_eq!(arrows[k].position, p(0, 0, 100));
        } else {
            assert_eq!(arrows[k].position, None);
        }
    }
}

#[test]
fn cube_faces_wind_as_proved() {
    // ((b - a) x (c - a)) . outward normal, per face
    let v = create_cube_vertices();
    let indices = cube_indices();
    let normals = [(0, 0, 1), (0, 0, -1), (1, 0, 0), (-1, 0, 0), (0, 1, 0), (0, -1, 0)];
    for (t, tri) in indices.chunks(3).enumerate() {
        let [a, b, c] = [tri[0], tri[1], tri[2]].map(|i| v[i as usize].position.unwrap());
        let (ux, uy, uz) = (b.x - a.x, b.y - a.y, b.z - a.z);
        let (wx, wy, wz) = (c.x - a.x, c.y - a.y, c.z - a.z);
        let n = normals[t / 2];
        let w = (uy * wz - uz * wy) * n.0 + (uz * wx - ux * wz) * n.1 + (ux * wy - uy * wx) * n.2;
        match t / 2 {
            0 | 3 | 5 => assert_eq!(w, 4),
            _ => assert_eq!(w, -4),
        }
    }
}
