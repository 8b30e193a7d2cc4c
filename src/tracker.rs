use vstd::prelude::*;

verus! {

/// The texture at `index` of `textures`, or `None` when the index is out of
/// bounds (which includes every index of an empty set).
pub open spec fn texture_at(textures: Seq<u64>, index: int) -> Option<u64> {
    if 0 <= index < textures.len() {
        Some(textures[index])
    } else {
        None
    }
}

/// What the application last told the graphics API: the device, the
/// swapchain's texture set, and the index of the texture acquired for the
/// frame being rendered. Every setter overwrites; nothing is merged.
#[derive(Debug)]
pub struct StateTracker {
    pub device: Option<u64>,
    pub textures: Vec<u64>,
    pub index: i32,
}

impl StateTracker {
    /// No device, no textures, index 0.
    pub fn new() -> (r: StateTracker)
        ensures
            r.device.is_none(),
            r.textures@.len() == 0,
            r.index == 0,
    {
        StateTracker { device: None, textures: Vec::new(), index: 0 }
    }

    pub fn set_device(&mut self, device: u64)
        ensures
            final(self).device == Some(device),
            final(self).textures@ == old(self).textures@,
            final(self).index == old(self).index,
    {
        self.device = Some(device);
    }

    pub fn device(&self) -> (r: Option<u64>)
        ensures
            r == self.device,
    {
        self.device
    }

    /// Replaces the texture set with a copy of `textures`.
    pub fn set_textures(&mut self, textures: &[u64])
        ensures
            final(self).textures@ == textures@,
            final(self).device == old(self).device,
            final(self).index == old(self).index,
    {
        self.textures = vstd::slice::slice_to_vec(textures);
    }

    pub fn textures(&self) -> (r: &[u64])
        ensures
            r@ == self.textures@,
    {
        self.textures.as_slice()
    }

    pub fn set_index(&mut self, index: i32)
        ensures
            final(self).index == index,
            final(self).device == old(self).device,
            final(self).textures@ == old(self).textures@,
    {
        self.index = index;
    }

    pub fn index(&self) -> (r: i32)
        ensures
            r == self.index,
    {
        self.index
    }

    /// The texture at the current index, or `None` when there is none there.
    pub fn current_texture(&self) -> (r: Option<u64>)
        ensures
            r == texture_at(self.textures@, self.index as int),
    {
        if self.index >= 0 && (self.index as usize) < self.textures.len() {
            Some(self.textures[self.index as usize])
        } else {
            None
        }
    }
}

} // verus!
