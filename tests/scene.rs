use three_bridge::geometry::{Quat, Transform, Vec3};
use three_bridge::layers::Layers;
use three_bridge::scene::{SceneError, SceneGraph};

fn pose(x: i32, y: i32, z: i32) -> Transform {
    Transform {
        position: Vec3 { x, y, z },
        scale: Vec3 { x: 1, y: 1, z: 1 },
        quaternion: Quat { x: 0, y: 0, z: 0, w: 1 },
    }
}

#[test]
fn set_transform_reads_back_all_ten_values() {
    let mut g = SceneGraph::new();
    let a = g.add_object(pose(0, 0, 0), Layers::new());
    assert_eq!(a.set_transform(&mut g, 1, 2, 3, 4, 5, 6, 7, 8, 9, 10), Ok(()));
    let t = g.transform(a).unwrap();
    assert_eq!(t.position, Vec3 { x: 1, y: 2, z: 3 });
    assert_eq!(t.scale, Vec3 { x: 4, y: 5, z: 6 });
    assert_eq!(t.quaternion, Quat { x: 7, y: 8, z: 9, w: 10 });
}

#[test]
fn partial_writes_touch_one_field() {
    let mut g = SceneGraph::new();
    let a = g.add_object(pose(1, 2, 3), Layers::new());
    a.set_scale(&mut g, 2, 3, 4).unwrap();
    a.set_quaternion(&mut g, 0, 1, 0, 0).unwrap();
    let t = g.transform(a).unwrap();
    assert_eq!(t.position, Vec3 { x: 1, y: 2, z: 3 });
    assert_eq!(t.scale, Vec3 { x: 2, y: 3, z: 4 });
    assert_eq!(t.quaternion, Quat { x: 0, y: 1, z: 0, w: 0 });
    a.set_position(&mut g, -5, 6, -7).unwrap();
    let t = g.transform(a).unwrap();
    assert_eq!(t.position, Vec3 { x: -5, y: 6, z: -7 });
    assert_eq!(t.scale, Vec3 { x: 2, y: 3, z: 4 });
}

#[test]
fn add_position_twice_equals_one_set() {
    let mut g = SceneGraph::new();
    let a = g.add_object(pose(10, 20, 30), Layers::new());
    let b = g.add_object(pose(10, 20, 30), Layers::new());
    a.add_position(&mut g, 1, -2, 3).unwrap();
    a.add_position(&mut g, 4, 5, -6).unwrap();
    b.set_position(&mut g, 10 + 1 + 4, 20 - 2 + 5, 30 + 3 - 6).unwrap();
    assert_eq!(g.transform(a), g.transform(b));
    assert_eq!(g.transform(a).unwrap().position, Vec3 { x: 15, y: 23, z: 27 });
}

#[test]
fn removed_node_handle_dangles() {
    let mut g = SceneGraph::new();
    let a = g.add_object(pose(0, 0, 0), Layers::new());
    let b = g.add_object(pose(0, 0, 0), Layers::new());
    assert_eq!(g.remove(a), Ok(()));
    assert!(!g.contains(a));
    assert!(g.contains(b));
    assert_eq!(a.set_position(&mut g, 1, 1, 1), Err(SceneError::DanglingHandle));
    assert_eq!(a.set_scale(&mut g, 1, 1, 1), Err(SceneError::DanglingHandle));
    assert_eq!(a.set_quaternion(&mut g, 0, 0, 0, 1), Err(SceneError::DanglingHandle));
    assert_eq!(a.set_transform(&mut g, 0, 0, 0, 1, 1, 1, 0, 0, 0, 1), Err(SceneError::DanglingHandle));
    assert_eq!(a.add_position(&mut g, 1, 1, 1), Err(SceneError::DanglingHandle));
    assert_eq!(g.transform(a), Err(SceneError::DanglingHandle));
    assert_eq!(g.remove(a), Err(SceneError::DanglingHandle));
    assert_eq!(g.add_child(b, a), Err(SceneError::DanglingHandle));
    let c = g.add_object(pose(0, 0, 0), Layers::new());
    assert_eq!(c.id(), 2);
    assert!(!g.contains(a));
    assert_eq!(g.node_count(), 3);
}

#[test]
fn hierarchy_and_descendants() {
    let mut g = SceneGraph::new();
    let root = g.add_object(pose(0, 0, 0), Layers::new());
    let mid = g.add_object(pose(0, 0, 0), Layers::new());
    let leaf = g.add_object(pose(0, 0, 0), Layers::new());
    g.add_child(root, mid).unwrap();
    g.add_child(mid, leaf).unwrap();
    assert_eq!(g.parent(leaf), Ok(Some(mid)));
    assert!(g.is_descendant(leaf, root));
    assert!(g.is_descendant(root, root));
    assert!(!g.is_descendant(root, leaf));
    g.remove_child(root, leaf).unwrap();
    assert_eq!(g.parent(leaf), Ok(Some(mid)));
    g.remove_child(mid, leaf).unwrap();
    assert_eq!(g.parent(leaf), Ok(None));
    assert!(!g.is_descendant(leaf, root));
}

#[test]
fn layers_of_a_node() {
    let mut g = SceneGraph::new();
    let a = g.add_object(pose(0, 0, 0), Layers::new());
    assert_eq!(g.layers(a), Ok(Layers { mask: 1 }));
    g.set_layers(a, Layers::from_mask(0x30)).unwrap();
    assert_eq!(g.layers(a), Ok(Layers { mask: 0x30 }));
}
