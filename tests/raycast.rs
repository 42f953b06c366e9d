use three_bridge::animation::LoopMode;
use three_bridge::geometry::{Quat, Ratio, Transform, Vec3};
use three_bridge::layers::Layers;
use three_bridge::material::MeshBasicMaterialParameters;
use three_bridge::raycaster::{Hit, Raycaster, RayError};
use three_bridge::scene::{Object3D, SceneError, SceneGraph};

fn origin() -> Transform {
    Transform {
        position: Vec3 { x: 0, y: 0, z: 0 },
        scale: Vec3 { x: 1, y: 1, z: 1 },
        quaternion: Quat { x: 0, y: 0, z: 0, w: 1 },
    }
}

fn caster() -> Raycaster {
    Raycaster::new(Vec3 { x: 0, y: 0, z: 0 }, Vec3 { x: 0, y: 0, z: -1 }, 0, 1000)
}

fn hit(object: Object3D, distance: u64) -> Hit {
    Hit { object, distance }
}

#[test]
fn ndc_of_center_is_origin() {
    let n = Raycaster::ndc(400, 300, 800, 600);
    assert_eq!(n.x.num, 0);
    assert_eq!(n.y.num, 0);
}

#[test]
fn ndc_of_corners() {
    let n = Raycaster::ndc(0, 0, 800, 600);
    assert_eq!(n.x, Ratio { num: -800, den: 800 });
    assert_eq!(n.y, Ratio { num: 600, den: 600 });
    let n = Raycaster::ndc(800, 600, 800, 600);
    assert_eq!(n.x, Ratio { num: 800, den: 800 });
    assert_eq!(n.y, Ratio { num: -600, den: 600 });
}

#[test]
fn ndc_quarter_point_and_outside() {
    let n = Raycaster::ndc(200, 150, 800, 600);
    assert_eq!(n.x.num * 2, -n.x.den);
    assert_eq!(n.y.num * 2, n.y.den);
    let n = Raycaster::ndc(-800, 1200, 800, 600);
    assert_eq!(n.x.num, -3 * n.x.den);
    assert_eq!(n.y.num, -3 * n.y.den);
}

#[test]
fn hits_come_nearest_first() {
    let mut g = SceneGraph::new();
    let a = g.add_object(origin(), Layers::new());
    let b = g.add_object(origin(), Layers::new());
    let c = g.add_object(origin(), Layers::new());
    let found = vec![hit(a, 5), hit(b, 1), hit(c, 3)];
    let r = caster().intersect_objects(&g, &vec![a, b, c], false, &found, None).unwrap();
    let d: Vec<u64> = r.iter().map(|h| h.distance).collect();
    assert_eq!(d, vec![1, 3, 5]);
    assert_eq!(r[0].object, b);
    assert_eq!(r[1].object, c);
    assert_eq!(r[2].object, a);
}

#[test]
fn layer_mismatch_excludes_node() {
    let mut g = SceneGraph::new();
    let a = g.add_object(origin(), Layers::from_mask(1 << 5));
    let b = g.add_object(origin(), Layers::new());
    let found = vec![hit(a, 2), hit(b, 4)];
    let rc = caster();
    assert_eq!(rc.layers.mask, 1);
    let r = rc.intersect_objects(&g, &vec![a, b], false, &found, None).unwrap();
    assert_eq!(r, vec![hit(b, 4)]);
    let stale = vec![hit(b, 99), hit(a, 98)];
    let r = rc.intersect_object(&g, a, false, &found, Some(stale)).unwrap();
    assert!(r.is_empty());
}

#[test]
fn near_far_and_selection() {
    let mut g = SceneGraph::new();
    let a = g.add_object(origin(), Layers::new());
    let b = g.add_object(origin(), Layers::new());
    let mut rc = caster();
    rc.near = 2;
    rc.far = 10;
    let found = vec![hit(a, 1), hit(a, 11), hit(a, 10), hit(b, 2)];
    let r = rc.intersect_object(&g, a, false, &found, None).unwrap();
    assert_eq!(r, vec![hit(a, 10)]);
}

#[test]
fn recursive_query_includes_descendants() {
    let mut g = SceneGraph::new();
    let root = g.add_object(origin(), Layers::new());
    let child = g.add_object(origin(), Layers::new());
    g.add_child(root, child).unwrap();
    let found = vec![hit(child, 7), hit(root, 9)];
    let flat = caster().intersect_object(&g, root, false, &found, None).unwrap();
    assert_eq!(flat, vec![hit(root, 9)]);
    let deep = caster().intersect_object(&g, root, true, &found, None).unwrap();
    assert_eq!(deep, vec![hit(child, 7), hit(root, 9)]);
}

#[test]
fn equal_distances_keep_traversal_order() {
    let mut g = SceneGraph::new();
    let a = g.add_object(origin(), Layers::new());
    let b = g.add_object(origin(), Layers::new());
    let found = vec![hit(a, 3), hit(b, 3)];
    let r = caster().intersect_objects(&g, &vec![a, b], false, &found, None).unwrap();
    assert_eq!(r, vec![hit(a, 3), hit(b, 3)]);
}

#[test]
fn query_on_removed_node_dangles() {
    let mut g = SceneGraph::new();
    let a = g.add_object(origin(), Layers::new());
    let b = g.add_object(origin(), Layers::new());
    g.remove(a).unwrap();
    let found = vec![hit(b, 1)];
    assert_eq!(caster().intersect_object(&g, a, false, &found, None), Err(SceneError::DanglingHandle));
    assert_eq!(caster().intersect_objects(&g, &vec![b, a], true, &found, None), Err(SceneError::DanglingHandle));
    assert_eq!(caster().intersect_objects(&g, &vec![], true, &found, None), Ok(vec![]));
}

#[test]
fn ground_plane_straight_down() {
    let rc = Raycaster::new(Vec3 { x: 0, y: 5, z: 0 }, Vec3 { x: 0, y: -1, z: 0 }, 0, 100);
    let p = rc.intersect_ground_plane().unwrap();
    assert_eq!(p.point.x.num, 0);
    assert_eq!(p.point.y.num, 0);
    assert_eq!(p.point.z.num, 0);
    assert_eq!(p.distance, Ratio { num: 5, den: 1 });
}

#[test]
fn ground_plane_pointing_away() {
    let rc = Raycaster::new(Vec3 { x: 0, y: 5, z: 0 }, Vec3 { x: 0, y: 1, z: 0 }, 0, 100);
    assert_eq!(rc.intersect_ground_plane(), Err(RayError::NoIntersection));
}

#[test]
fn ground_plane_parallel_and_oblique() {
    let mut rc = Raycaster::new(Vec3 { x: 1, y: 5, z: 2 }, Vec3 { x: 1, y: 0, z: 0 }, 0, 100);
    assert_eq!(rc.intersect_ground_plane(), Err(RayError::NoIntersection));
    rc.set_ray(Vec3 { x: 1, y: 4, z: 2 }, Vec3 { x: 3, y: -2, z: 1 });
    let p = rc.intersect_ground_plane().unwrap();
    // t = 2: (1 + 6, 0, 2 + 2)
    assert_eq!(p.distance, Ratio { num: 4, den: 2 });
    assert_eq!(p.point.x, Ratio { num: 14, den: 2 });
    assert_eq!(p.point.z, Ratio { num: 8, den: 2 });
    rc.set_ray(Vec3 { x: 0, y: 0, z: 0 }, Vec3 { x: 0, y: 1, z: 0 });
    assert_eq!(rc.intersect_ground_plane().unwrap().distance.num, 0);
}

#[test]
fn loop_mode_codes() {
    assert_eq!(LoopMode::default(), LoopMode::Repeat);
    assert_eq!(LoopMode::Once.code(), 2200);
    assert_eq!(LoopMode::Repeat.code(), 2201);
    assert_eq!(LoopMode::PingPong.code(), 2202);
    assert_eq!(LoopMode::from_code(2202), Some(LoopMode::PingPong));
    assert_eq!(LoopMode::from_code(7), None);
    assert_eq!(MeshBasicMaterialParameters::new(0xff8800).color, 0xff8800);
}
