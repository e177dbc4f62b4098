use vstd::prelude::*;

verus! {

/// The size of a presentation surface, in physical pixels.
#[derive(Clone, Copy, Debug, PartialEq, Eq, Structural)]
pub struct SurfaceSize {
    pub width: u32,
    pub height: u32,
}

impl SurfaceSize {
    pub fn new(width: u32, height: u32) -> (r: SurfaceSize)
        ensures
            r == (SurfaceSize { width, height }),
    {
        SurfaceSize { width, height }
    }

    /// Whether a surface of this size can be configured: both sides nonzero.
    pub fn is_drawable(&self) -> (r: bool)
        ensures
            r == drawable(*self),
    {
        self.width > 0 && self.height > 0
    }
}

pub open spec fn drawable(size: SurfaceSize) -> bool {
    size.width > 0 && size.height > 0
}

/// The configured size after a resize request: the request where both sides
/// are nonzero (a minimised window reports a zero side), else the size as it was.
pub open spec fn resized(current: SurfaceSize, requested: SurfaceSize) -> SurfaceSize {
    if drawable(requested) {
        requested
    } else {
        current
    }
}

/// Resizing twice to one size configures what resizing once does, and a
/// request with a zero side leaves the configuration as it was.
pub proof fn lemma_resize_idempotent(current: SurfaceSize, requested: SurfaceSize)
    ensures
        resized(resized(current, requested), requested) == resized(current, requested),
        !drawable(requested) ==> resized(current, requested) == current,
{
}

/// Picks the surface format: the first sRGB one where `srgb[i]` says whether
/// format `i` is sRGB-encoded, else the first. `None` when there is no format.
pub fn preferred_format(srgb: &[bool]) -> (r: Option<usize>)
    ensures
        r is None <==> srgb@.len() == 0,
        r matches Some(i) ==> i < srgb@.len() && ((srgb@[i as int] && forall|j: int|
            0 <= j < i ==> !#[trigger] srgb@[j]) || (i == 0 && forall|j: int|
            0 <= j < srgb@.len() ==> !#[trigger] srgb@[j])),
{
    if srgb.len() == 0 {
        return None;
    }
    let mut i: usize = 0;
    while i < srgb.len()
        invariant
            i <= srgb@.len(),
            forall|j: int| 0 <= j < i ==> !#[trigger] srgb@[j],
        decreases srgb@.len() - i,
    {
        if srgb[i] {
            return Some(i);
        }
        i += 1;
    }
    Some(0)
}

} // verus!
