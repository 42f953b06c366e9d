use vstd::prelude::*;

verus! {

/// Number of layers a mask can hold: one per bit of a `u32`.
pub const LAYER_COUNT: u8 = 32;

/// Failure of a layer-mask operation.
#[derive(Debug, Clone, Copy, PartialEq, Eq, Structural)]
pub enum LayerError {
    /// The bit index is outside `0..32`.
    InvalidLayer,
}

/// The single-bit mask of `layer`.
pub open spec fn layer_bit(layer: u8) -> u32
    recommends
        layer < 32,
{
    1u32 << (layer as u32)
}

/// A 32-bit set of layers. A node is eligible for a ray caster's test iff the
/// two masks share a bit.
#[derive(Debug, Clone, Copy, PartialEq, Eq, Structural)]
pub struct Layers {
    pub mask: u32,
}

impl Layers {
    /// The default mask: only layer 0 is enabled.
    pub fn new() -> (r: Layers)
        ensures
            r.mask == 1u32,
    {
        Layers { mask: 1 }
    }

    /// A mask with exactly the given bits.
    pub fn from_mask(mask: u32) -> (r: Layers)
        ensures
            r.mask == mask,
    {
        Layers { mask }
    }

    /// Enables `layer`, keeping every other bit.
    pub fn enable(&mut self, layer: u8) -> (r: Result<(), LayerError>)
        ensures
            layer < 32 ==> r == Ok::<(), LayerError>(()) && final(self).mask == old(self).mask | layer_bit(layer),
            layer >= 32 ==> r == Err::<(), LayerError>(LayerError::InvalidLayer) && *final(self) == *old(self),
    {
        if layer >= LAYER_COUNT {
            return Err(LayerError::InvalidLayer);
        }
        self.mask = self.mask | (1u32 << (layer as u32));
        Ok(())
    }

    /// Disables `layer`, keeping every other bit.
    pub fn disable(&mut self, layer: u8) -> (r: Result<(), LayerError>)
        ensures
            layer < 32 ==> r == Ok::<(), LayerError>(()) && final(self).mask == old(self).mask & !layer_bit(layer),
            layer >= 32 ==> r == Err::<(), LayerError>(LayerError::InvalidLayer) && *final(self) == *old(self),
    {
        if layer >= LAYER_COUNT {
            return Err(LayerError::InvalidLayer);
        }
        self.mask = self.mask & !(1u32 << (layer as u32));
        Ok(())
    }

    /// Makes `layer` the only enabled layer.
    pub fn set(&mut self, layer: u8) -> (r: Result<(), LayerError>)
        ensures
            layer < 32 ==> r == Ok::<(), LayerError>(()) && final(self).mask == layer_bit(layer),
            layer >= 32 ==> r == Err::<(), LayerError>(LayerError::InvalidLayer) && *final(self) == *old(self),
    {
        if layer >= LAYER_COUNT {
            return Err(LayerError::InvalidLayer);
        }
        self.mask = 1u32 << (layer as u32);
        Ok(())
    }

    /// Flips `layer`, keeping every other bit.
    pub fn toggle(&mut self, layer: u8) -> (r: Result<(), LayerError>)
        ensures
            layer < 32 ==> r == Ok::<(), LayerError>(()) && final(self).mask == old(self).mask ^ layer_bit(layer),
            layer >= 32 ==> r == Err::<(), LayerError>(LayerError::InvalidLayer) && *final(self) == *old(self),
    {
        if layer >= LAYER_COUNT {
            return Err(LayerError::InvalidLayer);
        }
        self.mask = self.mask ^ (1u32 << (layer as u32));
        Ok(())
    }

    /// Enables all 32 layers.
    pub fn enable_all(&mut self)
        ensures
            final(self).mask == 0xffff_ffffu32,
    {
        self.mask = 0xffff_ffff;
    }

    /// Disables all layers.
    pub fn disable_all(&mut self)
        ensures
            final(self).mask == 0u32,
    {
        self.mask = 0;
    }

    /// Whether the two masks share at least one layer.
    pub fn test(&self, other: &Layers) -> (r: bool)
        ensures
            r == (self.mask & other.mask != 0u32),
    {
        self.mask & other.mask != 0
    }

    /// Whether `layer` is enabled.
    pub fn is_enabled(&self, layer: u8) -> (r: Result<bool, LayerError>)
        ensures
            layer < 32 ==> r == Ok::<bool, LayerError>(self.mask & layer_bit(layer) != 0u32),
            layer >= 32 ==> r == Err::<bool, LayerError>(LayerError::InvalidLayer),
    {
        if layer >= LAYER_COUNT {
            return Err(LayerError::InvalidLayer);
        }
        Ok(self.mask & (1u32 << (layer as u32)) != 0)
    }
}

} // verus!
