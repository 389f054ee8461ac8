//! The editor window's logical size, kept within the bounds the editor
//! supports whatever the host or the web view asks for.

use vstd::prelude::*;

verus! {

pub const EDITOR_WIDTH: u32 = 1280;
pub const EDITOR_HEIGHT: u32 = 720;
pub const MIN_WIDTH: u32 = 600;
pub const MIN_HEIGHT: u32 = 380;
pub const MAX_WIDTH: u32 = 2560;
pub const MAX_HEIGHT: u32 = 1600;

/// Whether a size lies within the editor's bounds.
pub open spec fn size_in_bounds(width: u32, height: u32) -> bool {
    &&& MIN_WIDTH <= width <= MAX_WIDTH
    &&& MIN_HEIGHT <= height <= MAX_HEIGHT
}

/// `v` brought into `[lo, hi]`.
pub open spec fn clamped(v: u32, lo: u32, hi: u32) -> u32 {
    if v < lo {
        lo
    } else if v > hi {
        hi
    } else {
        v
    }
}

/// The editor's logical size; always within bounds.
pub struct EditorGeometry {
    width: u32,
    height: u32,
}

impl EditorGeometry {
    #[verifier::type_invariant]
    closed spec fn well_formed(self) -> bool {
        size_in_bounds(self.width, self.height)
    }

    /// The current `(width, height)`.
    pub closed spec fn spec_size(&self) -> (u32, u32) {
        (self.width, self.height)
    }

    /// The size an editor opens at.
    pub fn new() -> (g: Self)
        ensures
            g.spec_size() == (EDITOR_WIDTH, EDITOR_HEIGHT),
    {
        EditorGeometry { width: EDITOR_WIDTH, height: EDITOR_HEIGHT }
    }

    /// The current `(width, height)`; it is always within bounds.
    pub fn size(&self) -> (s: (u32, u32))
        ensures
            s == self.spec_size(),
            size_in_bounds(s.0, s.1),
    {
        proof {
            use_type_invariant(self);
        }
        (self.width, self.height)
    }

    /// A resize asked for by the web view: taken when within bounds, refused
    /// (leaving the size as it was) otherwise. Returns whether it was taken.
    pub fn try_resize(&mut self, width: u32, height: u32) -> (taken: bool)
        ensures
            taken == size_in_bounds(width, height),
            final(self).spec_size() == if taken {
                (width, height)
            } else {
                old(self).spec_size()
            },
    {
        if MIN_WIDTH <= width && width <= MAX_WIDTH && MIN_HEIGHT <= height && height
            <= MAX_HEIGHT {
            *self = EditorGeometry { width, height };
            true
        } else {
            false
        }
    }

    /// A size set by the host: brought into bounds and taken. Returns the
    /// size taken.
    pub fn set_clamped(&mut self, width: u32, height: u32) -> (s: (u32, u32))
        ensures
            s == (clamped(width, MIN_WIDTH, MAX_WIDTH), clamped(height, MIN_HEIGHT, MAX_HEIGHT)),
            final(self).spec_size() == s,
    {
        let w = if width < MIN_WIDTH {
            MIN_WIDTH
        } else if width > MAX_WIDTH {
            MAX_WIDTH
        } else {
            width
        };
        let h = if height < MIN_HEIGHT {
            MIN_HEIGHT
        } else if height > MAX_HEIGHT {
            MAX_HEIGHT
        } else {
            height
        };
        *self = EditorGeometry { width: w, height: h };
        (w, h)
    }
}

} // verus!
