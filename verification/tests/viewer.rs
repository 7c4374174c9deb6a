use step_viewer_core::hierarchy::NewFace;
use step_viewer_core::loader::LoadEvent;
use step_viewer_core::settings::{AxesMode, SelectionMode, Toggle};
use step_viewer_core::viewer::{HierarchyPanel, Recolor, SceneShell, StatusOverlay, Viewer};

type V = Viewer<String, (), u32>;

fn face(name: &str) -> NewFace {
    NewFace { name: name.to_string(), triangles: 1 }
}

#[test]
fn starting_a_load_clears_the_hierarchy_and_shows_progress() {
    let mut v: V = Viewer::new(Some("a.step".to_string()));
    v.hierarchy.add_shell(0, "old".to_string(), &vec![face("f")]);
    assert_eq!(v.status_overlay(), StatusOverlay::Nothing);
    assert!(v.start_pending_load());
    assert!(v.hierarchy.faces().is_empty() && v.hierarchy.shells().is_empty());
    assert_eq!(v.status_overlay(), StatusOverlay::Parsing);
    v.session.handle_events(vec![LoadEvent::TotalShells(4), LoadEvent::Progress(2, 4)]);
    assert_eq!(v.status_overlay(), StatusOverlay::Tessellating { current: 2, total: 4 });
    v.session.handle_events(vec![LoadEvent::Error("x".to_string())]);
    assert_eq!(v.status_overlay(), StatusOverlay::Error);
    assert!(!v.start_pending_load());
}

#[test]
fn recolor_plan_lists_recorded_faces() {
    let mut v: V = Viewer::new(Some("a.step".to_string()));
    v.start_pending_load();
    v.session.handle_events(vec![LoadEvent::Shell(0), LoadEvent::Shell(1), LoadEvent::Done]);
    v.hierarchy.add_shell(10, "s".to_string(), &vec![face("a"), face("b")]);
    v.hierarchy.add_shell(11, "t".to_string(), &vec![face("c")]);
    let shells = vec![
        SceneShell { shell_id: 10, has_file_color: false, face_names: vec!["a".to_string(), "zz".to_string(), "b".to_string()] },
        SceneShell { shell_id: 11, has_file_color: true, face_names: vec!["c".to_string()] },
    ];
    // nothing to do until random colours are toggled
    assert!(v.take_recolor_plan(&shells).is_empty());
    v.settings.toggle(Toggle::RandomColors);
    let plan = v.take_recolor_plan(&shells);
    assert_eq!(
        plan,
        vec![
            Recolor { shell: 0, face: 0, record: 0, colored: true },
            Recolor { shell: 0, face: 2, record: 1, colored: true },
            Recolor { shell: 1, face: 0, record: 2, colored: true },
        ]
    );
    assert!(!v.settings.needs_mesh_rebuild);
    v.settings.toggle(Toggle::RandomColors);
    let plan = v.take_recolor_plan(&shells);
    assert_eq!(plan[0].colored, false);
    assert_eq!(plan[2].colored, true);
}

#[test]
fn recolor_request_is_dropped_without_a_scene() {
    let mut v: V = Viewer::new(None);
    v.settings.toggle(Toggle::RandomColors);
    assert!(v.take_recolor_plan(&vec![]).is_empty());
    assert!(!v.settings.needs_mesh_rebuild);
}

#[test]
fn hierarchy_panel_follows_the_load() {
    let mut v: V = Viewer::new(Some("a.step".to_string()));
    assert_eq!(v.hierarchy_panel(), HierarchyPanel::Prompt);
    v.start_pending_load();
    assert_eq!(v.hierarchy_panel(), HierarchyPanel::Loading);
    v.hierarchy.add_shell(0, "s".to_string(), &vec![face("f")]);
    assert_eq!(v.hierarchy_panel(), HierarchyPanel::Tree);
}

#[test]
fn new_viewer_starts_with_the_default_display_options() {
    let v: V = Viewer::new(None);
    let s = &v.settings;
    assert!(!s.show_random_colors && !s.show_bounding_box && !s.show_wireframe);
    assert!(s.show_axes && s.axes_mode == AxesMode::ScreenTriad);
    assert!(s.show_grids && s.show_grid_xy && s.show_grid_yz && s.show_grid_xz);
    assert!(s.show_scale_ruler);
    assert!(s.selection_mode == SelectionMode::Face);
    assert!(!s.needs_mesh_rebuild);
}
