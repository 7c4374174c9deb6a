use step_viewer_core::overlay::{bounding_box_edges, camera_viewport, Viewport};
use step_viewer_core::settings::{AxesMode, GridPlane, SelectionMode, Toggle, ViewSettings};
use step_viewer_core::window::SurfaceSize;

#[test]
fn viewport_sits_between_the_panels() {
    assert_eq!(camera_viewport(1000, 600, 300, 200), Viewport { x: 300, y: 0, width: 500, height: 600 });
    assert_eq!(camera_viewport(400, 600, 300, 200), Viewport { x: 300, y: 0, width: 0, height: 600 });
    assert_eq!(camera_viewport(100, 50, 300, 0), Viewport { x: 300, y: 0, width: 0, height: 50 });
}

#[test]
fn bounding_box_has_twelve_distinct_edges() {
    let edges = bounding_box_edges();
    assert_eq!(edges.len(), 12);
    for (i, (a, b)) in edges.iter().enumerate() {
        let diff = (a.max_x != b.max_x) as u8 + (a.max_y != b.max_y) as u8 + (a.max_z != b.max_z) as u8;
        assert_eq!(diff, 1);
        for (c, d) in &edges[i + 1..] {
            assert!(!((a == c && b == d) || (a == d && b == c)));
        }
    }
    // the first edge runs along x on the bottom face
    assert!(!edges[0].0.max_x && edges[0].1.max_x && !edges[0].0.max_y && !edges[0].1.max_y);
}

#[test]
fn default_settings() {
    let s = ViewSettings::default();
    assert!(!s.show_random_colors && !s.show_bounding_box && !s.show_wireframe);
    assert!(s.show_axes && s.axes_mode == AxesMode::ScreenTriad);
    assert!(s.show_grids && s.show_scale_ruler);
    assert_eq!(s.selection_mode, SelectionMode::Face);
    assert_eq!(s.grid_planes(), vec![GridPlane::XY, GridPlane::YZ, GridPlane::XZ]);
    assert!(s.screen_triad_visible() && !s.world_axes_visible());
}

#[test]
fn toggling_random_colors_requests_a_rebuild() {
    let mut s = ViewSettings::default();
    s.toggle(Toggle::BoundingBox);
    assert!(s.show_bounding_box && !s.needs_mesh_rebuild);
    s.toggle(Toggle::RandomColors);
    assert!(s.show_random_colors && s.needs_mesh_rebuild);
    assert!(s.shows_face_colors(false));
    assert!(s.take_mesh_rebuild());
    assert!(!s.take_mesh_rebuild());
    s.toggle(Toggle::RandomColors);
    assert!(!s.show_random_colors);
    assert!(!s.shows_face_colors(false) && s.shows_face_colors(true));
}

#[test]
fn grid_plane_list_follows_the_checkboxes() {
    let mut s = ViewSettings::default();
    s.show_grid_yz = false;
    assert_eq!(s.grid_planes(), vec![GridPlane::XY, GridPlane::XZ]);
    s.show_grid_xy = false;
    s.show_grid_xz = false;
    assert!(s.grid_planes().is_empty());
    s.axes_mode = AxesMode::World;
    assert!(s.world_axes_visible());
    s.toggle(Toggle::Axes);
    assert!(!s.world_axes_visible() && !s.screen_triad_visible());
}

#[test]
fn resize_ignores_an_empty_window() {
    let mut size = SurfaceSize { width: 800, height: 600 };
    assert!(!size.resize(SurfaceSize { width: 0, height: 300 }));
    assert_eq!(size, SurfaceSize { width: 800, height: 600 });
    assert!(size.resize(SurfaceSize { width: 1024, height: 768 }));
    assert_eq!(size, SurfaceSize { width: 1024, height: 768 });
}
