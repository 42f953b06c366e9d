//! A verified model of the boundary between application code and a
//! retained-mode 3D scene graph: layer masks, non-owning node handles with
//! batched transform writes, pixel to normalized-device-coordinate mapping,
//! and ray casting with layer filtering and a ground-plane fast path.

pub mod layers;
pub mod geometry;
pub mod scene;
pub mod raycaster;
pub mod animation;
pub mod material;
