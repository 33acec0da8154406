//! The plain-value side of the GPU context: the surface size and its
//! reconfiguration rule, the choice of surface format and the layout of a
//! texture upload.

use vstd::prelude::*;

verus! {

/// The plain part of the surface configuration: its size in pixels and
/// whether it has been configured.
#[derive(Clone, Copy, Debug, PartialEq, Eq, Structural)]
pub struct SurfaceSize {
    pub width: u32,
    pub height: u32,
    pub is_configured: bool,
}

impl SurfaceSize {
    /// The surface is never configured with a zero dimension.
    pub open spec fn wf(self) -> bool {
        self.width >= 1 && self.height >= 1
    }

    /// The size after a resize request: taken only when both dimensions
    /// are positive (a minimised window reports zero and keeps the old size).
    pub open spec fn resized(self, width: u32, height: u32) -> SurfaceSize {
        if width > 0 && height > 0 {
            SurfaceSize { width, height, is_configured: true }
        } else {
            self
        }
    }

    /// The initial configuration for a window of the given inner size:
    /// each dimension is raised to at least 1, and the surface is configured.
    pub fn new(width: u32, height: u32) -> (s: SurfaceSize)
        ensures
            s.width == (if width >= 1 { width } else { 1 }),
            s.height == (if height >= 1 { height } else { 1 }),
            s.is_configured,
            s.wf(),
    {
        let w: u32 = if width >= 1 { width } else { 1 };
        let h: u32 = if height >= 1 { height } else { 1 };
        SurfaceSize { width: w, height: h, is_configured: true }
    }

    /// Applies a resize request; returns whether the surface (and with it
    /// the depth buffer) must be reconfigured at the new size.
    pub fn resize(&mut self, width: u32, height: u32) -> (reconfigure: bool)
        ensures
            reconfigure == (width > 0 && height > 0),
            *final(self) == old(self).resized(width, height),
    {
        if width > 0 && height > 0 {
            self.width = width;
            self.height = height;
            self.is_configured = true;
            true
        } else {
            false
        }
    }
}

/// A resize with both dimensions positive configures the surface at
/// exactly that width and height (not swapped, not clamped); any other
/// resize leaves the configuration as it was.
pub proof fn lemma_surface_resized(s: SurfaceSize, width: u32, height: u32)
    ensures
        width > 0 && height > 0 ==> s.resized(width, height) == (SurfaceSize { width, height, is_configured: true }),
        !(width > 0 && height > 0) ==> s.resized(width, height) == s,
{
}

/// The index of the surface format to use, given for each format the
/// surface supports whether it is an sRGB format: the first sRGB format,
/// or the first format when none is sRGB.
pub fn pick_surface_format(is_srgb: &Vec<bool>) -> (idx: usize)
    requires
        is_srgb@.len() > 0,
    ensures
        idx < is_srgb@.len(),
        (exists|i: int| 0 <= i < is_srgb@.len() && is_srgb@[i]) ==> {
            &&& is_srgb@[idx as int]
            &&& forall|i: int| 0 <= i < idx ==> !is_srgb@[i]
        },
        (forall|i: int| 0 <= i < is_srgb@.len() ==> !is_srgb@[i]) ==> idx == 0,
{
    let mut i: usize = 0;
    while i < is_srgb.len()
        invariant
            i <= is_srgb@.len(),
            forall|j: int| 0 <= j < i ==> !is_srgb@[j],
        decreases is_srgb@.len() - i,
    {
        if is_srgb[i] {
            return i;
        }
        i = i + 1;
    }
    0
}

/// Where the rows of an RGBA8 texture upload lie in the source bytes.
#[derive(Clone, Copy, Debug, PartialEq, Eq, Structural)]
pub struct TexelLayout {
    pub offset: u64,
    pub bytes_per_row: u32,
    pub rows_per_image: u32,
}

/// The copy layout for a tightly packed `width` x `height` RGBA8 image:
/// starting at byte 0, one row of 4 bytes per texel after another.
pub fn texel_copy_layout(width: u32, height: u32) -> (layout: TexelLayout)
    requires
        4 * width <= u32::MAX,
    ensures
        layout.offset == 0,
        layout.bytes_per_row == 4 * width,
        layout.rows_per_image == height,
{
    TexelLayout { offset: 0, bytes_per_row: width * 4, rows_per_image: height }
}

} // verus!
