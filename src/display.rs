//! The active display mode, the staging buffer's geometry and the copy of a
//! frame into the render target.
use vstd::prelude::*;

verus! {

/// Bytes per pixel: packed 24-bit RGB.
pub const BYTES_PER_PIXEL: u64 = 3;

/// Widest and tallest mode the staging buffer is sized for.
pub const MAX_SIDE: u64 = 1024;

/// Capacity of the staging buffer, in bytes.
pub const STAGING_CAPACITY: usize = 3145728;

/// Width and height of the render target before the module reports a mode.
pub const INITIAL_WIDTH: u32 = 640;
pub const INITIAL_HEIGHT: u32 = 480;

/// Number of bytes a frame of `width` by `height` pixels occupies.
pub open spec fn frame_len(width: u32, height: u32) -> int {
    width * height * BYTES_PER_PIXEL
}

/// Whether a report of `width` by `height` calls for a new render target
/// when `active` is allocated.
pub open spec fn needs_realloc(active: DisplayMode, width: u32, height: u32) -> bool {
    width != active.width || height != active.height
}

/// The size of the render target currently allocated.
#[derive(Clone, Copy, Debug, PartialEq, Eq, Structural)]
pub struct DisplayMode {
    pub width: u32,
    pub height: u32,
}

impl DisplayMode {
    /// The mode the render target starts with.
    pub fn new() -> (r: DisplayMode)
        ensures
            r.width == INITIAL_WIDTH,
            r.height == INITIAL_HEIGHT,
    {
        DisplayMode { width: INITIAL_WIDTH, height: INITIAL_HEIGHT }
    }

    /// Takes the size the module reported for the current frame. Returns
    /// whether the render target must be reallocated, which is exactly when
    /// the reported size differs from the active one; the active size then
    /// becomes the reported one.
    pub fn apply_reported(&mut self, width: u32, height: u32) -> (realloc: bool)
        ensures
            realloc == needs_realloc(*old(self), width, height),
            *final(self) == (DisplayMode { width, height }),
    {
        let realloc = width != self.width || height != self.height;
        if realloc {
            self.width = width;
            self.height = height;
        }
        realloc
    }
}

/// Reallocation happens exactly when the reported size differs from the
/// active one; once a size has been taken, reporting it again is a no-op.
pub proof fn lemma_mode_change_idempotent(active: DisplayMode, width: u32, height: u32)
    ensures
        needs_realloc(active, width, height) <==> active != (DisplayMode { width, height }),
        !needs_realloc(DisplayMode { width, height }, width, height),
{
}

/// The number of bytes of a `width` by `height` frame, when it fits in the
/// staging buffer; `None` when the module reports a larger mode.
pub fn frame_bytes(width: u32, height: u32) -> (r: Option<usize>)
    ensures
        r is Some <==> frame_len(width, height) <= STAGING_CAPACITY,
        r matches Some(n) ==> n == frame_len(width, height),
{
    let w = width as u64;
    let h = height as u64;
    assert(w * h <= 0xffff_fffe_0000_0001) by (nonlinear_arith)
        requires
            w <= 0xffff_ffff,
            h <= 0xffff_ffff,
    ;
    let pixels: u64 = w * h;
    if pixels > MAX_SIDE * MAX_SIDE {
        None
    } else {
        Some((pixels * BYTES_PER_PIXEL) as usize)
    }
}

/// Copies the first `len` bytes of the staging buffer into the render
/// target, leaving the rest of the target as it was.
pub fn blit(target: &mut [u8], staging: &[u8], len: usize)
    requires
        len <= old(target)@.len(),
        len <= staging@.len(),
    ensures
        final(target)@.len() == old(target)@.len(),
        final(target)@ == staging@.subrange(0, len as int) + old(target)@.subrange(
            len as int,
            old(target)@.len() as int,
        ),
{
    let mut i: usize = 0;
    while i < len
        invariant
            i <= len,
            len <= target@.len(),
            len <= staging@.len(),
            target@.len() == old(target)@.len(),
            forall|k: int| 0 <= k < i ==> target@[k] == staging@[k],
            forall|k: int| i <= k < target@.len() ==> target@[k] == old(target)@[k],
        decreases len - i,
    {
        target[i] = staging[i];
        i = i + 1;
    }
    assert(target@ =~= staging@.subrange(0, len as int) + old(target)@.subrange(
        len as int,
        old(target)@.len() as int,
    ));
}

} // verus!
