use vstd::prelude::*;

verus! {

/// Width, in pixels, that the surface is first configured with.
pub const INIT_WIDTH: u32 = 800;

/// Height, in pixels, that the surface is first configured with.
pub const INIT_HEIGHT: u32 = 600;

/// The size, in pixels, of the surface that frames are drawn into.
#[derive(Clone, Copy, Debug, PartialEq, Eq, Structural)]
pub struct SurfaceSize {
    pub width: u32,
    pub height: u32,
}

/// Whether a window of `width` by `height` pixels can be drawn into.
pub open spec fn drawable(width: u32, height: u32) -> bool {
    width != 0 && height != 0
}

impl SurfaceSize {
    /// Whether a resize to `width` by `height` is taken.
    pub open spec fn resize_reports(self, width: u32, height: u32) -> bool {
        drawable(width, height)
    }

    /// The surface after a resize to `width` by `height`.
    pub open spec fn after_resize(self, width: u32, height: u32) -> SurfaceSize {
        if drawable(width, height) {
            SurfaceSize { width, height }
        } else {
            self
        }
    }

    /// The size the surface starts with.
    pub fn new() -> (s: SurfaceSize)
        ensures
            s.width == INIT_WIDTH,
            s.height == INIT_HEIGHT,
    {
        SurfaceSize { width: INIT_WIDTH, height: INIT_HEIGHT }
    }

    /// Takes the new size of the window. A size with a zero side is ignored
    /// and `false` returned; otherwise the surface takes that size and `true`
    /// is returned, after which it must be reconfigured.
    pub fn resize(&mut self, width: u32, height: u32) -> (changed: bool)
        ensures
            changed == drawable(width, height),
            changed == (width != 0 && height != 0),
            changed == old(self).resize_reports(width, height),
            *final(self) == old(self).after_resize(width, height),
            changed ==> final(self).width == width && final(self).height == height,
            !changed ==> *final(self) == *old(self),
            drawable(old(self).width, old(self).height) ==> drawable(final(self).width, final(self).height),
    {
        if width == 0 || height == 0 {
            return false;
        }
        self.width = width;
        self.height = height;
        true
    }

    /// Width in pixels.
    pub fn width(&self) -> (w: u32)
        ensures
            w == self.width,
    {
        self.width
    }

    /// Height in pixels.
    pub fn height(&self) -> (h: u32)
        ensures
            h == self.height,
    {
        self.height
    }
}

/// Exactly the sizes with no zero side are drawable, whatever the ratio of
/// their sides.
pub proof fn lemma_drawable_iff_no_zero_side(width: u32, height: u32)
    ensures
        drawable(width, height) <==> (width != 0 && height != 0),
        width != 0 && height != 0 ==> drawable(width, height) && drawable(height, width),
{
}

/// Any size with two nonzero sides is taken by a resize, from any surface:
/// the resize reports a change and the surface then has exactly that size.
/// A size with a zero side leaves the surface as it was.
pub proof fn lemma_resize_takes_every_nonzero_size(s: SurfaceSize, width: u32, height: u32)
    ensures
        (width != 0 && height != 0) ==> s.after_resize(width, height) == (SurfaceSize { width, height }),
        (width != 0 && height != 0) ==> s.resize_reports(width, height),
        (width == 0 || height == 0) ==> s.after_resize(width, height) == s && !s.resize_reports(width, height),
{
}

} // verus!
