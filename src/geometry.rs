use vstd::prelude::*;

verus! {

/// A point or vector in fixed-point scene units.
#[derive(Debug, Clone, Copy, PartialEq, Eq, Structural)]
pub struct Vec3 {
    pub x: i32,
    pub y: i32,
    pub z: i32,
}

/// Raw quaternion components, forwarded as given: never renormalized here.
#[derive(Debug, Clone, Copy, PartialEq, Eq, Structural)]
pub struct Quat {
    pub x: i32,
    pub y: i32,
    pub z: i32,
    pub w: i32,
}

/// The local pose of a node: translation, scale and orientation.
#[derive(Debug, Clone, Copy, PartialEq, Eq, Structural)]
pub struct Transform {
    pub position: Vec3,
    pub scale: Vec3,
    pub quaternion: Quat,
}

/// An exact rational number `num / den`, with `den > 0`.
#[derive(Debug, Clone, Copy, PartialEq, Eq, Structural)]
pub struct Ratio {
    pub num: i64,
    pub den: i64,
}

impl Ratio {
    /// Whether the ratio denotes the integer `v`.
    pub open spec fn denotes(self, v: int) -> bool {
        self.den > 0 && self.num == v * self.den
    }
}

/// A point whose coordinates are exact rationals.
#[derive(Debug, Clone, Copy, PartialEq, Eq, Structural)]
pub struct RatioPoint {
    pub x: Ratio,
    pub y: Ratio,
    pub z: Ratio,
}

} // verus!
