use vstd::prelude::*;
use crate::geometry::{Quat, Transform, Vec3};
use crate::layers::Layers;

verus! {

/// Failure of an operation on a node handle.
#[derive(Debug, Clone, Copy, PartialEq, Eq, Structural)]
pub enum SceneError {
    /// The handle names a node that is no longer in the graph.
    DanglingHandle,
}

/// One slot of the scene graph's registry.
#[derive(Debug, Clone, Copy, PartialEq, Eq, Structural)]
pub struct Node {
    pub alive: bool,
    pub transform: Transform,
    pub layers: Layers,
    pub parent: Option<u32>,
}

/// A non-owning handle to a node of a [`SceneGraph`]: the node's id, which is
/// its slot in the registry. Slots are never reused, so a handle whose node was
/// removed stays dangling.
#[derive(Debug, Clone, Copy, PartialEq, Eq, Structural)]
pub struct Object3D {
    pub id: u32,
}

/// The registry of nodes owned by the scene-graph engine. Handles only observe
/// and mutate nodes through it; each operation is one call into it.
pub struct SceneGraph {
    nodes: Vec<Node>,
}

impl View for SceneGraph {
    type V = Seq<Node>;

    closed spec fn view(&self) -> Seq<Node> {
        self.nodes@
    }
}

/// Whether `id` names a node that is still in the graph.
pub open spec fn is_live(s: Seq<Node>, id: u32) -> bool {
    (id as int) < s.len() && s[id as int].alive
}

/// The graph with the transform of node `id` replaced by `t`.
pub open spec fn with_transform(s: Seq<Node>, id: u32, t: Transform) -> Seq<Node> {
    let n = s[id as int];
    s.update(id as int, Node { alive: n.alive, transform: t, layers: n.layers, parent: n.parent })
}

/// `t` with its translation replaced.
pub open spec fn moved_to(t: Transform, p: Vec3) -> Transform {
    Transform { position: p, scale: t.scale, quaternion: t.quaternion }
}

/// `t` with its scale replaced.
pub open spec fn scaled_to(t: Transform, sc: Vec3) -> Transform {
    Transform { position: t.position, scale: sc, quaternion: t.quaternion }
}

/// `t` with its orientation replaced.
pub open spec fn turned_to(t: Transform, q: Quat) -> Transform {
    Transform { position: t.position, scale: t.scale, quaternion: q }
}

/// Whether a value fits in an `i32`.
pub open spec fn fits_i32(v: int) -> bool {
    i32::MIN <= v <= i32::MAX
}

/// The graph after `set_position(id, p)`.
pub open spec fn after_set_position(s: Seq<Node>, id: u32, p: Vec3) -> Seq<Node> {
    with_transform(s, id, moved_to(s[id as int].transform, p))
}

/// The graph after `add_position(id, dx, dy, dz)`.
pub open spec fn after_add_position(s: Seq<Node>, id: u32, dx: int, dy: int, dz: int) -> Seq<Node> {
    let p = s[id as int].transform.position;
    let v = Vec3 { x: (p.x + dx) as i32, y: (p.y + dy) as i32, z: (p.z + dz) as i32 };
    after_set_position(s, id, v)
}

/// The graph after `remove(id)`: the node is gone and detached from its parent.
pub open spec fn after_remove(s: Seq<Node>, id: u32) -> Seq<Node> {
    let n = s[id as int];
    s.update(id as int, Node { alive: false, transform: n.transform, layers: n.layers, parent: None })
}

/// Whether `node` is `root` or reached from it by at most `fuel` parent links.
pub open spec fn is_under(s: Seq<Node>, node: int, root: int, fuel: nat) -> bool
    decreases fuel,
{
    if node == root {
        true
    } else if fuel == 0 || !(0 <= node < s.len()) {
        false
    } else {
        match s[node].parent {
            Some(p) => is_under(s, p as int, root, (fuel - 1) as nat),
            None => false,
        }
    }
}

/// Whether `node` is `root` or one of its descendants.
pub open spec fn is_descendant(s: Seq<Node>, node: u32, root: u32) -> bool {
    is_under(s, node as int, root as int, s.len())
}

impl SceneGraph {
    /// An empty graph.
    pub fn new() -> (r: SceneGraph)
        ensures
            r@ == Seq::<Node>::empty(),
    {
        SceneGraph { nodes: Vec::new() }
    }

    /// Number of nodes ever created, removed ones included.
    pub fn node_count(&self) -> (r: usize)
        ensures
            r == self@.len(),
    {
        self.nodes.len()
    }

    /// Creates a live root node with the given pose and layers.
    pub fn add_object(&mut self, transform: Transform, layers: Layers) -> (r: Object3D)
        requires
            old(self)@.len() < u32::MAX,
        ensures
            r.id == old(self)@.len(),
            final(self)@ == old(self)@.push(Node { alive: true, transform, layers, parent: None }),
    {
        let id = self.nodes.len() as u32;
        self.nodes.push(Node { alive: true, transform, layers, parent: None });
        Object3D { id }
    }

    /// Whether the handle's node is still in the graph.
    pub fn contains(&self, obj: Object3D) -> (r: bool)
        ensures
            r == is_live(self@, obj.id),
    {
        (obj.id as usize) < self.nodes.len() && self.nodes[obj.id as usize].alive
    }

    /// Removes the node from the graph, invalidating every handle to it.
    pub fn remove(&mut self, obj: Object3D) -> (r: Result<(), SceneError>)
        ensures
            is_live(old(self)@, obj.id) ==> r == Ok::<(), SceneError>(()) && final(self)@ == after_remove(old(self)@, obj.id),
            !is_live(old(self)@, obj.id) ==> r == Err::<(), SceneError>(SceneError::DanglingHandle) && final(self)@ == old(self)@,
    {
        if !self.contains(obj) {
            return Err(SceneError::DanglingHandle);
        }
        let i = obj.id as usize;
        let n = self.nodes[i];
        self.nodes.set(i, Node { alive: false, transform: n.transform, layers: n.layers, parent: None });
        Ok(())
    }

    /// The node's current pose.
    pub fn transform(&self, obj: Object3D) -> (r: Result<Transform, SceneError>)
        ensures
            is_live(self@, obj.id) ==> r == Ok::<Transform, SceneError>(self@[obj.id as int].transform),
            !is_live(self@, obj.id) ==> r == Err::<Transform, SceneError>(SceneError::DanglingHandle),
    {
        if !self.contains(obj) {
            return Err(SceneError::DanglingHandle);
        }
        Ok(self.nodes[obj.id as usize].transform)
    }

    /// The node's layer mask.
    pub fn layers(&self, obj: Object3D) -> (r: Result<Layers, SceneError>)
        ensures
            is_live(self@, obj.id) ==> r == Ok::<Layers, SceneError>(self@[obj.id as int].layers),
            !is_live(self@, obj.id) ==> r == Err::<Layers, SceneError>(SceneError::DanglingHandle),
    {
        if !self.contains(obj) {
            return Err(SceneError::DanglingHandle);
        }
        Ok(self.nodes[obj.id as usize].layers)
    }

    /// Replaces the node's layer mask.
    pub fn set_layers(&mut self, obj: Object3D, layers: Layers) -> (r: Result<(), SceneError>)
        ensures
            is_live(old(self)@, obj.id) ==> r == Ok::<(), SceneError>(()) && final(self)@ == old(self)@.update(
                obj.id as int,
                (Node { layers, ..old(self)@[obj.id as int] }),
            ),
            !is_live(old(self)@, obj.id) ==> r == Err::<(), SceneError>(SceneError::DanglingHandle) && final(self)@ == old(self)@,
    {
        if !self.contains(obj) {
            return Err(SceneError::DanglingHandle);
        }
        let i = obj.id as usize;
        let n = self.nodes[i];
        self.nodes.set(i, Node { layers, ..n });
        Ok(())
    }

    /// The node's parent, if it has one.
    pub fn parent(&self, obj: Object3D) -> (r: Result<Option<Object3D>, SceneError>)
        ensures
            is_live(self@, obj.id) ==> r == Ok::<Option<Object3D>, SceneError>(
                match self@[obj.id as int].parent {
                    Some(p) => Some(Object3D { id: p }),
                    None => None,
                },
            ),
            !is_live(self@, obj.id) ==> r == Err::<Option<Object3D>, SceneError>(SceneError::DanglingHandle),
    {
        if !self.contains(obj) {
            return Err(SceneError::DanglingHandle);
        }
        match self.nodes[obj.id as usize].parent {
            Some(p) => Ok(Some(Object3D { id: p })),
            None => Ok(None),
        }
    }

    /// Attaches `child` under `parent`, detaching it from any former parent
    /// in the same call.
    pub fn add_child(&mut self, parent: Object3D, child: Object3D) -> (r: Result<(), SceneError>)
        ensures
            is_live(old(self)@, parent.id) && is_live(old(self)@, child.id) ==> r == Ok::<(), SceneError>(())
                && final(self)@ == old(self)@.update(
                child.id as int,
                (Node { parent: Some(parent.id), ..old(self)@[child.id as int] }),
            ),
            !(is_live(old(self)@, parent.id) && is_live(old(self)@, child.id)) ==> r == Err::<(), SceneError>(
                SceneError::DanglingHandle,
            ) && final(self)@ == old(self)@,
    {
        if !self.contains(parent) || !self.contains(child) {
            return Err(SceneError::DanglingHandle);
        }
        let i = child.id as usize;
        let n = self.nodes[i];
        self.nodes.set(i, Node { parent: Some(parent.id), ..n });
        Ok(())
    }

    /// Detaches `child` from `parent`; a node that is not a child of `parent`
    /// is left as it is.
    pub fn remove_child(&mut self, parent: Object3D, child: Object3D) -> (r: Result<(), SceneError>)
        ensures
            is_live(old(self)@, parent.id) && is_live(old(self)@, child.id) ==> r == Ok::<(), SceneError>(())
                && final(self)@ == (if old(self)@[child.id as int].parent == Some(parent.id) {
                old(self)@.update(child.id as int, (Node { parent: None, ..old(self)@[child.id as int] }))
            } else {
                old(self)@
            }),
            !(is_live(old(self)@, parent.id) && is_live(old(self)@, child.id)) ==> r == Err::<(), SceneError>(
                SceneError::DanglingHandle,
            ) && final(self)@ == old(self)@,
    {
        if !self.contains(parent) || !self.contains(child) {
            return Err(SceneError::DanglingHandle);
        }
        let i = child.id as usize;
        let n = self.nodes[i];
        if n.parent == Some(parent.id) {
            self.nodes.set(i, Node { parent: None, ..n });
        }
        Ok(())
    }

    /// Whether `node` is `root` or one of its descendants.
    pub fn is_descendant(&self, node: Object3D, root: Object3D) -> (r: bool)
        ensures
            r == is_descendant(self@, node.id, root.id),
    {
        let len = self.nodes.len();
        let mut cur: u32 = node.id;
        let mut fuel: usize = len;
        loop
            invariant
                len == self@.len(),
                fuel <= len,
                is_under(self@, node.id as int, root.id as int, len as nat) == is_under(
                    self@,
                    cur as int,
                    root.id as int,
                    fuel as nat,
                ),
            decreases fuel,
        {
            if cur == root.id {
                return true;
            }
            if fuel == 0 || cur as usize >= len {
                return false;
            }
            match self.nodes[cur as usize].parent {
                Some(p) => {
                    cur = p;
                    fuel = fuel - 1;
                },
                None => {
                    return false;
                },
            }
        }
    }

    /// Overwrites the transform of a live node.
    fn write_transform(&mut self, id: u32, t: Transform)
        requires
            is_live(old(self)@, id),
        ensures
            final(self)@ == with_transform(old(self)@, id, t),
    {
        let i = id as usize;
        let n = self.nodes[i];
        self.nodes.set(i, Node { transform: t, ..n });
    }
}

impl Object3D {
    /// The engine-assigned id of the node.
    pub fn id(&self) -> (r: u32)
        ensures
            r == self.id,
    {
        self.id
    }

    /// Overwrites the translation in one call.
    pub fn set_position(&self, scene: &mut SceneGraph, x: i32, y: i32, z: i32) -> (r: Result<(), SceneError>)
        ensures
            is_live(old(scene)@, self.id) ==> r == Ok::<(), SceneError>(()) && final(scene)@ == after_set_position(
                old(scene)@,
                self.id,
                Vec3 { x, y, z },
            ),
            !is_live(old(scene)@, self.id) ==> r == Err::<(), SceneError>(SceneError::DanglingHandle) && final(scene)@ == old(scene)@,
    {
        if !scene.contains(*self) {
            return Err(SceneError::DanglingHandle);
        }
        let t = scene.nodes[self.id as usize].transform;
        scene.write_transform(self.id, Transform { position: Vec3 { x, y, z }, ..t });
        Ok(())
    }

    /// Overwrites the scale in one call.
    pub fn set_scale(&self, scene: &mut SceneGraph, x: i32, y: i32, z: i32) -> (r: Result<(), SceneError>)
        ensures
            is_live(old(scene)@, self.id) ==> r == Ok::<(), SceneError>(()) && final(scene)@ == with_transform(
                old(scene)@,
                self.id,
                scaled_to(old(scene)@[self.id as int].transform, Vec3 { x, y, z }),
            ),
            !is_live(old(scene)@, self.id) ==> r == Err::<(), SceneError>(SceneError::DanglingHandle) && final(scene)@ == old(scene)@,
    {
        if !scene.contains(*self) {
            return Err(SceneError::DanglingHandle);
        }
        let t = scene.nodes[self.id as usize].transform;
        scene.write_transform(self.id, Transform { scale: Vec3 { x, y, z }, ..t });
        Ok(())
    }

    /// Overwrites the orientation with the raw components, in one call.
    pub fn set_quaternion(&self, scene: &mut SceneGraph, x: i32, y: i32, z: i32, w: i32) -> (r: Result<(), SceneError>)
        ensures
            is_live(old(scene)@, self.id) ==> r == Ok::<(), SceneError>(()) && final(scene)@ == with_transform(
                old(scene)@,
                self.id,
                turned_to(old(scene)@[self.id as int].transform, Quat { x, y, z, w }),
            ),
            !is_live(old(scene)@, self.id) ==> r == Err::<(), SceneError>(SceneError::DanglingHandle) && final(scene)@ == old(scene)@,
    {
        if !scene.contains(*self) {
            return Err(SceneError::DanglingHandle);
        }
        let t = scene.nodes[self.id as usize].transform;
        scene.write_transform(self.id, Transform { quaternion: Quat { x, y, z, w }, ..t });
        Ok(())
    }

    /// Overwrites translation, scale and orientation together in one call.
    pub fn set_transform(
        &self,
        scene: &mut SceneGraph,
        x: i32,
        y: i32,
        z: i32,
        sx: i32,
        sy: i32,
        sz: i32,
        qx: i32,
        qy: i32,
        qz: i32,
        qw: i32,
    ) -> (r: Result<(), SceneError>)
        ensures
            is_live(old(scene)@, self.id) ==> r == Ok::<(), SceneError>(()) && final(scene)@ == with_transform(
                old(scene)@,
                self.id,
                Transform {
                    position: Vec3 { x, y, z },
                    scale: Vec3 { x: sx, y: sy, z: sz },
                    quaternion: Quat { x: qx, y: qy, z: qz, w: qw },
                },
            ),
            !is_live(old(scene)@, self.id) ==> r == Err::<(), SceneError>(SceneError::DanglingHandle) && final(scene)@ == old(scene)@,
    {
        if !scene.contains(*self) {
            return Err(SceneError::DanglingHandle);
        }
        let t = Transform {
            position: Vec3 { x, y, z },
            scale: Vec3 { x: sx, y: sy, z: sz },
            quaternion: Quat { x: qx, y: qy, z: qz, w: qw },
        };
        scene.write_transform(self.id, t);
        Ok(())
    }

    /// Adds a delta to the current translation in one call, without reading
    /// the translation back first.
    pub fn add_position(&self, scene: &mut SceneGraph, x: i32, y: i32, z: i32) -> (r: Result<(), SceneError>)
        requires
            is_live(old(scene)@, self.id) ==> {
                let p = old(scene)@[self.id as int].transform.position;
                fits_i32(p.x + x) && fits_i32(p.y + y) && fits_i32(p.z + z)
            },
        ensures
            is_live(old(scene)@, self.id) ==> r == Ok::<(), SceneError>(()) && final(scene)@ == after_add_position(
                old(scene)@,
                self.id,
                x as int,
                y as int,
                z as int,
            ),
            !is_live(old(scene)@, self.id) ==> r == Err::<(), SceneError>(SceneError::DanglingHandle) && final(scene)@ == old(scene)@,
    {
        if !scene.contains(*self) {
            return Err(SceneError::DanglingHandle);
        }
        let t = scene.nodes[self.id as usize].transform;
        let p = Vec3 { x: t.position.x + x, y: t.position.y + y, z: t.position.z + z };
        scene.write_transform(self.id, Transform { position: p, ..t });
        Ok(())
    }
}

/// Writing a full transform and reading the pose back gives the ten values
/// written, and the node stays live.
pub proof fn lemma_set_transform_round_trip(s: Seq<Node>, id: u32, t: Transform)
    requires
        is_live(s, id),
    ensures
        is_live(with_transform(s, id, t), id),
        with_transform(s, id, t)[id as int].transform == t,
{
}

/// Adding `d1` and then `d2` to a node's translation leaves the graph as one
/// `set_position` to `initial + d1 + d2` does.
pub proof fn lemma_add_position_twice(
    s: Seq<Node>,
    id: u32,
    d1x: i32,
    d1y: i32,
    d1z: i32,
    d2x: i32,
    d2y: i32,
    d2z: i32,
)
    requires
        is_live(s, id),
        fits_i32(s[id as int].transform.position.x + d1x),
        fits_i32(s[id as int].transform.position.y + d1y),
        fits_i32(s[id as int].transform.position.z + d1z),
        fits_i32(s[id as int].transform.position.x + d1x + d2x),
        fits_i32(s[id as int].transform.position.y + d1y + d2y),
        fits_i32(s[id as int].transform.position.z + d1z + d2z),
    ensures
        ({
            let p = s[id as int].transform.position;
            after_add_position(after_add_position(s, id, d1x as int, d1y as int, d1z as int), id, d2x as int, d2y as int, d2z as int)
                == after_set_position(
                s,
                id,
                Vec3 { x: (p.x + d1x + d2x) as i32, y: (p.y + d1y + d2y) as i32, z: (p.z + d1z + d2z) as i32 },
            )
        }),
{
    let s1 = after_add_position(s, id, d1x as int, d1y as int, d1z as int);
    let p = s[id as int].transform.position;
    let v = Vec3 { x: (p.x + d1x + d2x) as i32, y: (p.y + d1y + d2y) as i32, z: (p.z + d1z + d2z) as i32 };
    assert(after_add_position(s1, id, d2x as int, d2y as int, d2z as int) =~= after_set_position(s, id, v));
}

/// Once a node is removed, its handles dangle: every operation on them fails
/// with `DanglingHandle`. No other node changes.
pub proof fn lemma_removed_handle_dangles(s: Seq<Node>, id: u32)
    requires
        is_live(s, id),
    ensures
        !is_live(after_remove(s, id), id),
        after_remove(s, id).len() == s.len(),
        forall|other: u32| other != id ==> is_live(after_remove(s, id), other) == is_live(s, other),
{
}

} // verus!
