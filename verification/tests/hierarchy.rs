use step_viewer_core::hierarchy::{Hierarchy, NewFace};

fn faces(names: &[&str]) -> Vec<NewFace> {
    names
        .iter()
        .enumerate()
        .map(|(i, n)| NewFace { name: n.to_string(), triangles: 10 * (i + 1) })
        .collect()
}

#[test]
fn faces_are_numbered_across_shells() {
    let mut h = Hierarchy::new();
    assert_eq!(h.add_shell(7, "body".to_string(), &faces(&["top", "side"])), 0);
    assert_eq!(h.add_shell(9, "lid".to_string(), &faces(&["a", "b", "c"])), 2);
    let ids: Vec<usize> = h.faces().iter().map(|f| f.id).collect();
    assert_eq!(ids, vec![0, 1, 2, 3, 4]);
    assert_eq!(h.shells().len(), 2);
    assert_eq!(h.shells()[0].face_ids, vec![0, 1]);
    assert_eq!(h.shells()[1].face_ids, vec![2, 3, 4]);
    assert_eq!(h.shells()[1].id, 9);
    assert_eq!(h.shells()[1].name, "lid");
    assert!(h.shells()[1].expanded);
    assert_eq!(h.faces()[3].shell_id, 9);
    assert_eq!(h.faces()[3].name, "b");
    assert_eq!(h.faces()[3].triangles, 20);
    assert!(h.faces().iter().all(|f| f.visible));
}

#[test]
fn find_face_by_shell_and_name() {
    let mut h = Hierarchy::new();
    h.add_shell(1, "s".to_string(), &faces(&["x", "y", "x"]));
    h.add_shell(2, "t".to_string(), &faces(&["x"]));
    assert_eq!(h.find_face(1, &"x".to_string()), Some(0));
    assert_eq!(h.find_face(1, &"y".to_string()), Some(1));
    assert_eq!(h.find_face(2, &"x".to_string()), Some(3));
    assert_eq!(h.find_face(2, &"y".to_string()), None);
    assert_eq!(h.face_position(3), Some(3));
    assert_eq!(h.face_position(4), None);
}

#[test]
fn visibility_changes_are_recorded_once() {
    let mut h = Hierarchy::new();
    h.add_shell(1, "s".to_string(), &faces(&["x", "y"]));
    assert!(!h.take_visibility_change());
    h.set_face_visible(1, true); // already visible
    assert!(!h.take_visibility_change());
    h.set_face_visible(1, false);
    assert_eq!(h.face_visibility(1), Some(false));
    assert_eq!(h.face_visibility(0), Some(true));
    assert_eq!(h.face_visibility(5), None);
    assert!(h.take_visibility_change());
    assert!(!h.take_visibility_change());
    h.set_face_visible(5, false); // no such face
    assert!(!h.take_visibility_change());
}

#[test]
fn clear_forgets_everything() {
    let mut h = Hierarchy::new();
    h.add_shell(1, "s".to_string(), &faces(&["x"]));
    h.clear();
    assert!(h.faces().is_empty());
    assert!(h.shells().is_empty());
    assert_eq!(h.add_shell(3, "t".to_string(), &faces(&["y"])), 0);
}
