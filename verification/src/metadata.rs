//! The layout of the per-binding metadata side-table.
//!
//! For `N` bindings (inputs then outputs) of which `E` carry extended
//! metadata, the table is laid out as: per-binding `length` (`N` words),
//! per-binding `buffer_length` (`N` words), then per-extended-binding
//! `rank`, shape offset and stride offset (`E` words each); the variable
//! shape and stride data follows, reached through the stored offsets. The
//! host must rebuild the table with exactly these index functions; a
//! mismatch produces silent out-of-bounds reads on the GPU.

use vstd::prelude::*;

verus! {

/// Upper bound on `N`, so that every index below fits in a 32-bit word.
pub const MAX_META_BINDINGS: u32 = 0x2000_0000;

/// The index resolver for one kernel's metadata table.
#[derive(Clone, Copy, Debug, PartialEq, Eq, Structural)]
pub struct Metadata {
    pub num_meta: u32,
    pub num_ext: u32,
}

impl Metadata {
    /// The resolver counts at most [`MAX_META_BINDINGS`] bindings, of which
    /// the extended ones are a subset.
    pub open spec fn wf(self) -> bool {
        self.num_meta <= MAX_META_BINDINGS && self.num_ext <= self.num_meta
    }

    /// A resolver for `num_meta` bindings, `num_ext` of them extended.
    pub fn new(num_meta: u32, num_ext: u32) -> (r: Self)
        requires
            num_meta <= MAX_META_BINDINGS,
            num_ext <= num_meta,
        ensures
            r == (Metadata { num_meta, num_ext }),
            r.wf(),
    {
        Metadata { num_meta, num_ext }
    }

    /// Index of the `length` entry of binding `position`.
    pub fn len_index(&self, position: u32) -> (r: u32)
        requires
            self.wf(),
            position < self.num_meta,
        ensures
            r == position,
    {
        position
    }

    /// Index of the `buffer_length` entry of binding `position`.
    pub fn buffer_len_index(&self, position: u32) -> (r: u32)
        requires
            self.wf(),
            position < self.num_meta,
        ensures
            r == self.num_meta + position,
    {
        self.num_meta + position
    }

    /// Index of the `rank` entry of extended binding `position`.
    pub fn rank_index(&self, position: u32) -> (r: u32)
        requires
            self.wf(),
            position < self.num_ext,
        ensures
            r == 2 * self.num_meta + position,
    {
        2 * self.num_meta + position
    }

    /// Index of the stored offset of the shape data of extended binding
    /// `position`.
    pub fn shape_offset_index(&self, position: u32) -> (r: u32)
        requires
            self.wf(),
            position < self.num_ext,
        ensures
            r == 2 * self.num_meta + self.num_ext + position,
    {
        2 * self.num_meta + self.num_ext + position
    }

    /// Index of the stored offset of the stride data of extended binding
    /// `position`.
    pub fn stride_offset_index(&self, position: u32) -> (r: u32)
        requires
            self.wf(),
            position < self.num_ext,
        ensures
            r == 2 * self.num_meta + 2 * self.num_ext + position,
    {
        2 * self.num_meta + 2 * self.num_ext + position
    }
}

} // verus!
