//! The window that the shell asks the windowing runtime for.
use vstd::prelude::*;

verus! {

/// Initial width of the window, in logical pixels.
pub const INITIAL_WIDTH: u32 = 640;

/// Initial height of the window, in logical pixels.
pub const INITIAL_HEIGHT: u32 = 480;

/// Smallest width the window may be resized to, in logical pixels.
pub const MIN_WIDTH: u32 = 300;

/// Smallest height the window may be resized to, in logical pixels.
pub const MIN_HEIGHT: u32 = 220;

/// A width and a height in logical pixels.
#[derive(Clone, Copy, Debug, PartialEq, Eq, Structural)]
pub struct Size {
    pub width: u32,
    pub height: u32,
}

impl Size {
    /// Whether this size is at least `min` in both directions.
    pub open spec fn covers(self, min: Size) -> bool {
        self.width >= min.width && self.height >= min.height
    }
}

/// The title shown in the window's title bar.
pub open spec fn spec_title() -> Seq<char> {
    "My Image Viewer"@
}

/// What the shell asks of the window before the runtime clamps it to
/// what the platform allows.
#[derive(Clone, Copy, Debug)]
pub struct WindowConfig {
    pub title: &'static str,
    pub inner_size: Size,
    pub min_inner_size: Size,
}

impl WindowConfig {
    /// The configuration every launch uses.
    pub open spec fn is_startup(self) -> bool {
        &&& self.title@ == spec_title()
        &&& self.inner_size == (Size { width: 640, height: 480 })
        &&& self.min_inner_size == (Size { width: 300, height: 220 })
    }
}

/// The startup configuration: the title, a 640 by 480 window that may
/// shrink down to 300 by 220. The initial size never lies below the minimum.
pub fn window_config() -> (c: WindowConfig)
    ensures
        c.is_startup(),
        c.inner_size.covers(c.min_inner_size),
{
    WindowConfig {
        title: "My Image Viewer",
        inner_size: Size { width: INITIAL_WIDTH, height: INITIAL_HEIGHT },
        min_inner_size: Size { width: MIN_WIDTH, height: MIN_HEIGHT },
    }
}

} // verus!
