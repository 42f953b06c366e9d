use vstd::prelude::*;
use crate::geometry::{Ratio, RatioPoint, Vec3};
use crate::layers::Layers;
use crate::scene::{is_descendant, is_live, Node, Object3D, SceneError, SceneGraph};

verus! {

broadcast use vstd::seq_lib::group_to_multiset_ensures;

/// Failure of a ray query.
#[derive(Debug, Clone, Copy, PartialEq, Eq, Structural)]
pub enum RayError {
    /// The ray does not meet the surface in front of its origin.
    NoIntersection,
}

/// A normalized-device-coordinate pair, as exact rationals.
#[derive(Debug, Clone, Copy, PartialEq, Eq, Structural)]
pub struct Ndc {
    pub x: Ratio,
    pub y: Ratio,
}

/// One hit of a ray query: the node and its distance along the ray.
#[derive(Debug, Clone, Copy, PartialEq, Eq, Structural)]
pub struct Hit {
    pub object: Object3D,
    pub distance: u64,
}

/// The hit of the ground-plane fast path: the point where the ray meets the
/// plane `y = 0`, and the ray parameter `t` with `point = origin + t * direction`
/// (the distance, for a unit direction).
#[derive(Debug, Clone, Copy, PartialEq, Eq, Structural)]
pub struct PlaneHit {
    pub point: RatioPoint,
    pub distance: Ratio,
}

/// The NDC of a pixel: `x = (px / w) * 2 - 1` and `y = -(py / h) * 2 + 1`,
/// the Y axis flipped because pixel rows grow downwards.
pub open spec fn pixel_to_ndc(px: int, py: int, w: int, h: int) -> Ndc {
    Ndc {
        x: Ratio { num: (2 * px - w) as i64, den: w as i64 },
        y: Ratio { num: (h - 2 * py) as i64, den: h as i64 },
    }
}

/// Whether the hits are in ascending order of distance.
pub open spec fn sorted_by_distance(v: Seq<Hit>) -> bool {
    forall|i: int, j: int| 0 <= i < j < v.len() ==> #[trigger] v[i].distance <= #[trigger] v[j].distance
}

/// The hits at distance `d`, in their order in `v`.
pub open spec fn at_distance(v: Seq<Hit>, d: u64) -> Seq<Hit> {
    v.filter(|h: Hit| h.distance == d)
}

/// Whether `v` lists the hits of `src`, nearest first, with hits at equal
/// distances in their order in `src`.
pub open spec fn ordered_from(v: Seq<Hit>, src: Seq<Hit>) -> bool {
    &&& sorted_by_distance(v)
    &&& forall|d: u64| #[trigger] at_distance(v, d) == at_distance(src, d)
}

/// Whether every handle names a live node.
pub open spec fn all_live(s: Seq<Node>, objects: Seq<Object3D>) -> bool {
    forall|k: int| 0 <= k < objects.len() ==> is_live(s, #[trigger] objects[k].id)
}

/// Whether the hit node is one of `objects`, or, when `recursive`, a
/// descendant of one of them.
pub open spec fn selects(s: Seq<Node>, objects: Seq<Object3D>, recursive: bool, h: Hit) -> bool {
    exists|k: int|
        0 <= k < objects.len() && (if recursive {
            is_descendant(s, h.object.id, #[trigger] objects[k].id)
        } else {
            h.object.id == objects[k].id
        })
}

/// The ray `origin + t * direction` in ground-plane terms: where it meets
/// `y = 0`, every coordinate over the common denominator `|direction.y|`.
pub open spec fn ground_hit(o: Vec3, d: Vec3) -> PlaneHit {
    let s: int = if d.y > 0 { 1 } else { -1 };
    let den = (d.y * s) as i64;
    PlaneHit {
        point: RatioPoint {
            x: Ratio { num: ((o.x * d.y - d.x * o.y) * s) as i64, den },
            y: Ratio { num: 0, den },
            z: Ratio { num: ((o.z * d.y - d.z * o.y) * s) as i64, den },
        },
        distance: Ratio { num: (-o.y * s) as i64, den },
    }
}

/// Whether the ray meets `y = 0` at a parameter `t >= 0`: it is not parallel
/// to the plane, and `t = -o.y / d.y` is not negative.
pub open spec fn meets_ground(o: Vec3, d: Vec3) -> bool {
    d.y != 0 && o.y * d.y <= 0
}

/// A ray with its distance bounds and the layers it tests.
#[derive(Debug, Clone, Copy, PartialEq, Eq, Structural)]
pub struct Raycaster {
    pub origin: Vec3,
    pub direction: Vec3,
    pub near: u64,
    pub far: u64,
    pub layers: Layers,
}

impl Raycaster {
    /// Whether a hit found along the ray is reported: its node is live, shares
    /// a layer with the ray caster, lies within `[near, far]` and is selected.
    pub open spec fn accepts(self, s: Seq<Node>, objects: Seq<Object3D>, recursive: bool, h: Hit) -> bool {
        &&& is_live(s, h.object.id)
        &&& s[h.object.id as int].layers.mask & self.layers.mask != 0u32
        &&& self.near <= h.distance <= self.far
        &&& selects(s, objects, recursive, h)
    }

    /// A ray caster on the given ray, testing layer 0 only.
    pub fn new(origin: Vec3, direction: Vec3, near: u64, far: u64) -> (r: Raycaster)
        ensures
            r == (Raycaster { origin, direction, near, far, layers: Layers { mask: 1 } }),
    {
        Raycaster { origin, direction, near, far, layers: Layers::new() }
    }

    /// Maps a pixel of a `viewport_width` by `viewport_height` viewport, origin
    /// top-left, to normalized device coordinates, origin at the center and Y up.
    pub fn ndc(canvas_x: i32, canvas_y: i32, viewport_width: u32, viewport_height: u32) -> (r: Ndc)
        requires
            viewport_width > 0,
            viewport_height > 0,
        ensures
            r == pixel_to_ndc(canvas_x as int, canvas_y as int, viewport_width as int, viewport_height as int),
    {
        let w = viewport_width as i64;
        let h = viewport_height as i64;
        Ndc {
            x: Ratio { num: 2 * (canvas_x as i64) - w, den: w },
            y: Ratio { num: h - 2 * (canvas_y as i64), den: h },
        }
    }

    /// Replaces the ray, as unprojected from a camera and an NDC pair. The
    /// ray caster keeps no reference to the camera.
    pub fn set_ray(&mut self, origin: Vec3, direction: Vec3)
        ensures
            *final(self) == (Raycaster { origin, direction, ..*old(self) }),
    {
        self.origin = origin;
        self.direction = direction;
    }

    /// Tests the ray against `objects` (and, when `recursive`, their
    /// descendants). `found` lists what the engine's geometric test met along
    /// this ray, in its traversal order. The result holds exactly the accepted
    /// hits, nearest first; a dangling handle in `objects` fails the query.
    /// A buffer passed as `optional_target` is cleared and reused for the result.
    pub fn intersect_objects(
        &self,
        scene: &SceneGraph,
        objects: &Vec<Object3D>,
        recursive: bool,
        found: &Vec<Hit>,
        optional_target: Option<Vec<Hit>>,
    ) -> (r: Result<Vec<Hit>, SceneError>)
        ensures
            all_live(scene@, objects@) <==> r is Ok,
            !all_live(scene@, objects@) ==> r == Err::<Vec<Hit>, SceneError>(SceneError::DanglingHandle),
            r matches Ok(v) ==> ordered_from(v@, found@.filter(|h: Hit| self.accepts(scene@, objects@, recursive, h)))
                && v@.to_multiset() == found@.filter(|h: Hit| self.accepts(scene@, objects@, recursive, h)).to_multiset(),
    {
        let mut k: usize = 0;
        while k < objects.len()
            invariant
                k <= objects@.len(),
                forall|j: int| 0 <= j < k ==> is_live(scene@, #[trigger] objects@[j].id),
            decreases objects@.len() - k,
        {
            if !scene.contains(objects[k]) {
                return Err(SceneError::DanglingHandle);
            }
            k = k + 1;
        }
        let ghost pred = |h: Hit| self.accepts(scene@, objects@, recursive, h);
        let mut out: Vec<Hit> = match optional_target {
            Some(buf) => {
                let mut b = buf;
                b.clear();
                b
            },
            None => Vec::new(),
        };
        assert(out@ =~= found@.subrange(0, 0).filter(pred)) by {
            reveal(Seq::filter);
        }
        assert forall|d: u64| #[trigger] at_distance(out@, d) == at_distance(found@.subrange(0, 0).filter(pred), d) by {
            reveal(Seq::filter);
        }
        let mut i: usize = 0;
        while i < found.len()
            invariant
                i <= found@.len(),
                sorted_by_distance(out@),
                forall|d: u64| #[trigger] at_distance(out@, d) == at_distance(found@.subrange(0, i as int).filter(pred), d),
                out@.to_multiset() == found@.subrange(0, i as int).filter(pred).to_multiset(),
                pred == (|h: Hit| self.accepts(scene@, objects@, recursive, h)),
            decreases found@.len() - i,
        {
            let h = found[i];
            let keep = self.accepts_exec(scene, objects, recursive, h);
            proof {
                let pre = found@.subrange(0, i as int);
                let next = found@.subrange(0, i as int + 1);
                assert(next.drop_last() =~= pre);
                assert(next.last() == h);
                reveal(Seq::filter);
                assert(next.filter(pred) == if pred(h) { pre.filter(pred).push(h) } else { pre.filter(pred) });
                assert forall|d: u64| #[trigger] at_distance(next.filter(pred), d) == if pred(h) && h.distance == d {
                    at_distance(pre.filter(pred), d).push(h)
                } else {
                    at_distance(pre.filter(pred), d)
                } by {
                    lemma_at_distance_push(pre.filter(pred), h, d);
                }
            }
            if keep {
                insert_sorted(&mut out, h);
            }
            i = i + 1;
        }
        assert(found@.subrange(0, found@.len() as int) =~= found@);
        Ok(out)
    }

    /// Single-node form of [`Raycaster::intersect_objects`].
    pub fn intersect_object(
        &self,
        scene: &SceneGraph,
        object: Object3D,
        recursive: bool,
        found: &Vec<Hit>,
        optional_target: Option<Vec<Hit>>,
    ) -> (r: Result<Vec<Hit>, SceneError>)
        ensures
            is_live(scene@, object.id) <==> r is Ok,
            !is_live(scene@, object.id) ==> r == Err::<Vec<Hit>, SceneError>(SceneError::DanglingHandle),
            r matches Ok(v) ==> ordered_from(v@, found@.filter(|h: Hit| self.accepts(scene@, seq![object], recursive, h)))
                && v@.to_multiset() == found@.filter(|h: Hit| self.accepts(scene@, seq![object], recursive, h)).to_multiset(),
    {
        let objects = vec![object];
        assert(objects@ =~= seq![object]);
        assert(all_live(scene@, objects@) <==> is_live(scene@, object.id)) by {
            if is_live(scene@, object.id) {
                assert(forall|k: int| 0 <= k < objects@.len() ==> objects@[k] == object);
            } else {
                assert(objects@[0] == object);
            }
        }
        self.intersect_objects(scene, &objects, recursive, found, optional_target)
    }

    /// Where the ray meets the ground plane `y = 0`, with no traversal of the
    /// scene graph. Fails when the ray is parallel to the plane or the
    /// intersection lies behind the origin.
    pub fn intersect_ground_plane(&self) -> (r: Result<PlaneHit, RayError>)
        ensures
            meets_ground(self.origin, self.direction) <==> r is Ok,
            !meets_ground(self.origin, self.direction) ==> r == Err::<PlaneHit, RayError>(RayError::NoIntersection),
            r matches Ok(p) ==> p == ground_hit(self.origin, self.direction),
    {
        let o = self.origin;
        let d = self.direction;
        if d.y == 0 {
            return Err(RayError::NoIntersection);
        }
        let (ox, oy, oz) = (o.x as i64, o.y as i64, o.z as i64);
        let (dx, dy, dz) = (d.x as i64, d.y as i64, d.z as i64);
        assert(i32::MIN * i32::MAX <= oy * dy <= i32::MIN * i32::MIN) by (nonlinear_arith)
            requires
                i32::MIN <= oy <= i32::MAX,
                i32::MIN <= dy <= i32::MAX,
        ;
        if oy * dy > 0 {
            return Err(RayError::NoIntersection);
        }
        let s: i64 = if dy > 0 { 1 } else { -1 };
        assert(forall|a: i64, b: i64|
            i32::MIN <= a <= i32::MAX && i32::MIN <= b <= i32::MAX ==> i32::MIN * i32::MAX <= #[trigger] (a * b)
                <= i32::MIN * i32::MIN) by (nonlinear_arith);
        assert(i32::MIN * i32::MAX <= ox * dy <= i32::MIN * i32::MIN);
        assert(i32::MIN * i32::MAX <= dx * oy <= i32::MIN * i32::MIN);
        assert(i32::MIN * i32::MAX <= oz * dy <= i32::MIN * i32::MIN);
        assert(i32::MIN * i32::MAX <= dz * oy <= i32::MIN * i32::MIN);
        let den = dy * s;
        let x = (ox * dy - dx * oy) * s;
        let z = (oz * dy - dz * oy) * s;
        Ok(PlaneHit {
            point: RatioPoint {
                x: Ratio { num: x, den },
                y: Ratio { num: 0, den },
                z: Ratio { num: z, den },
            },
            distance: Ratio { num: -oy * s, den },
        })
    }

    /// Executable form of [`Raycaster::accepts`].
    fn accepts_exec(&self, scene: &SceneGraph, objects: &Vec<Object3D>, recursive: bool, h: Hit) -> (r: bool)
        ensures
            r == self.accepts(scene@, objects@, recursive, h),
    {
        let layers = match scene.layers(h.object) {
            Ok(l) => l,
            Err(_) => {
                return false;
            },
        };
        if !layers.test(&self.layers) || h.distance < self.near || h.distance > self.far {
            return false;
        }
        let mut k: usize = 0;
        while k < objects.len()
            invariant
                k <= objects@.len(),
                is_live(scene@, h.object.id),
                scene@[h.object.id as int].layers.mask & self.layers.mask != 0u32,
                self.near <= h.distance <= self.far,
                forall|j: int|
                    0 <= j < k ==> !(if recursive {
                        is_descendant(scene@, h.object.id, #[trigger] objects@[j].id)
                    } else {
                        h.object.id == objects@[j].id
                    }),
            decreases objects@.len() - k,
        {
            let hit = if recursive {
                scene.is_descendant(h.object, objects[k])
            } else {
                h.object.id == objects[k].id
            };
            if hit {
                assert(if recursive {
                    is_descendant(scene@, h.object.id, objects@[k as int].id)
                } else {
                    h.object.id == objects@[k as int].id
                });
                return true;
            }
            k = k + 1;
        }
        false
    }
}

/// Inserts `h` after every hit that is not farther than it, keeping `v` sorted.
fn insert_sorted(v: &mut Vec<Hit>, h: Hit)
    requires
        sorted_by_distance(old(v)@),
    ensures
        sorted_by_distance(final(v)@),
        forall|d: u64| #[trigger] at_distance(final(v)@, d) == if d == h.distance {
            at_distance(old(v)@, d).push(h)
        } else {
            at_distance(old(v)@, d)
        },
        final(v)@.to_multiset() == old(v)@.to_multiset().insert(h),
{
    let mut pos: usize = 0;
    while pos < v.len() && v[pos].distance <= h.distance
        invariant
            pos <= v@.len(),
            forall|j: int| 0 <= j < pos ==> #[trigger] v@[j].distance <= h.distance,
        decreases v@.len() - pos,
    {
        pos = pos + 1;
    }
    proof {
        if pos < v@.len() {
            assert(forall|j: int| pos <= j < v@.len() ==> #[trigger] v@[j].distance > h.distance) by {
                assert forall|j: int| pos <= j < v@.len() implies #[trigger] v@[j].distance > h.distance by {
                    if j > pos {
                        assert(v@[pos as int].distance <= v@[j].distance);
                    }
                }
            }
        }
    }
    let ghost before = v@;
    v.insert(pos, h);
    proof {
        before.insert_ensures(pos as int, h);
        assert(v@ == before.insert(pos as int, h));
        assert forall|i: int, j: int| 0 <= i < j < v@.len() implies #[trigger] v@[i].distance
            <= #[trigger] v@[j].distance by {
            if j < pos {
                assert(v@[i] == before[i] && v@[j] == before[j]);
            } else if j == pos {
                assert(v@[i] == before[i]);
            } else if i < pos {
                assert(v@[i] == before[i] && v@[j] == before[j - 1]);
            } else if i == pos {
                assert(v@[j] == before[j - 1]);
            } else {
                assert(v@[i] == before[i - 1] && v@[j] == before[j - 1]);
            }
        }
        let a = before.subrange(0, pos as int);
        let b = before.subrange(pos as int, before.len() as int);
        assert(before =~= a + b);
        assert(v@ =~= a.push(h) + b);
        assert forall|d: u64| #[trigger] at_distance(v@, d) == if d == h.distance {
            at_distance(before, d).push(h)
        } else {
            at_distance(before, d)
        } by {
            Seq::filter_distributes_over_add(a, b, |x: Hit| x.distance == d);
            Seq::filter_distributes_over_add(a.push(h), b, |x: Hit| x.distance == d);
            lemma_at_distance_push(a, h, d);
            if d == h.distance {
                lemma_at_distance_none(b, d);
                assert(at_distance(b, d) =~= Seq::<Hit>::empty());
                assert(at_distance(before, d) =~= at_distance(a, d));
                assert(at_distance(v@, d) =~= at_distance(a, d).push(h));
            }
        }
    }
}

/// Appending a hit appends it to the hits at its own distance only.
proof fn lemma_at_distance_push(s: Seq<Hit>, h: Hit, d: u64)
    ensures
        at_distance(s.push(h), d) == if h.distance == d {
            at_distance(s, d).push(h)
        } else {
            at_distance(s, d)
        },
{
    s.lemma_filter_push(h, |x: Hit| x.distance == d);
}

/// Hits all farther than `d` have none at distance `d`.
proof fn lemma_at_distance_none(s: Seq<Hit>, d: u64)
    requires
        forall|i: int| 0 <= i < s.len() ==> #[trigger] s[i].distance > d,
    ensures
        at_distance(s, d) == Seq::<Hit>::empty(),
    decreases s.len(),
{
    reveal(Seq::filter);
    if s.len() > 0 {
        lemma_at_distance_none(s.drop_last(), d);
    } else {
        assert(s =~= Seq::<Hit>::empty());
    }
}

/// The pixel at the exact center of the viewport maps to the NDC origin.
pub proof fn lemma_center_maps_to_origin(px: i32, py: i32, w: u32, h: u32)
    requires
        w > 0,
        h > 0,
        2 * px == w,
        2 * py == h,
    ensures
        pixel_to_ndc(px as int, py as int, w as int, h as int).x.denotes(0),
        pixel_to_ndc(px as int, py as int, w as int, h as int).y.denotes(0),
{
}

/// The top-left corner maps to `(-1, 1)` and the bottom-right corner to `(1, -1)`.
pub proof fn lemma_corners_map_to_extremes(w: u32, h: u32)
    requires
        w > 0,
        h > 0,
    ensures
        pixel_to_ndc(0, 0, w as int, h as int).x.denotes(-1),
        pixel_to_ndc(0, 0, w as int, h as int).y.denotes(1),
        pixel_to_ndc(w as int, h as int, w as int, h as int).x.denotes(1),
        pixel_to_ndc(w as int, h as int, w as int, h as int).y.denotes(-1),
{
}

/// The ground-plane hit lies on the ray and on the plane: every coordinate is
/// `origin + t * direction` over the common denominator, and `t >= 0`.
pub proof fn lemma_ground_hit_on_ray(o: Vec3, d: Vec3)
    requires
        meets_ground(o, d),
    ensures
        ({
            let p = ground_hit(o, d);
            &&& p.distance.den > 0
            &&& p.distance.num >= 0
            &&& p.point.x.num == o.x * p.point.x.den + d.x * p.distance.num
            &&& p.point.y.num == o.y * p.point.y.den + d.y * p.distance.num
            &&& p.point.z.num == o.z * p.point.z.den + d.z * p.distance.num
        }),
{
    let sg: int = if d.y > 0 { 1 } else { -1 };
    assert(i32::MIN * i32::MAX <= o.x * d.y <= i32::MIN * i32::MIN) by (nonlinear_arith)
        requires i32::MIN <= o.x <= i32::MAX, i32::MIN <= d.y <= i32::MAX;
    assert(i32::MIN * i32::MAX <= d.x * o.y <= i32::MIN * i32::MIN) by (nonlinear_arith)
        requires i32::MIN <= d.x <= i32::MAX, i32::MIN <= o.y <= i32::MAX;
    assert(i32::MIN * i32::MAX <= o.z * d.y <= i32::MIN * i32::MIN) by (nonlinear_arith)
        requires i32::MIN <= o.z <= i32::MAX, i32::MIN <= d.y <= i32::MAX;
    assert(i32::MIN * i32::MAX <= d.z * o.y <= i32::MIN * i32::MIN) by (nonlinear_arith)
        requires i32::MIN <= d.z <= i32::MAX, i32::MIN <= o.y <= i32::MAX;
    assert((o.x * d.y - d.x * o.y) * sg == o.x * (d.y * sg) + d.x * (-o.y * sg)) by (nonlinear_arith);
    assert((o.z * d.y - d.z * o.y) * sg == o.z * (d.y * sg) + d.z * (-o.y * sg)) by (nonlinear_arith);
    assert(0 == o.y * (d.y * sg) + d.y * (-o.y * sg)) by (nonlinear_arith);
    assert(-o.y * sg >= 0) by (nonlinear_arith)
        requires d.y != 0, o.y * d.y <= 0, sg == (if d.y > 0 { 1int } else { -1int });
}

/// A node that shares no layer with the ray caster is never reported, however
/// the ray meets it.
pub proof fn lemma_disjoint_layers_excluded(
    rc: Raycaster,
    s: Seq<Node>,
    objects: Seq<Object3D>,
    recursive: bool,
    h: Hit,
)
    requires
        is_live(s, h.object.id) ==> s[h.object.id as int].layers.mask & rc.layers.mask == 0u32,
    ensures
        !rc.accepts(s, objects, recursive, h),
{
}

} // verus!
