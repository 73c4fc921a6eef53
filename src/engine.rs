//! The window and context that the demo runs in.
use vstd::prelude::*;
use vstd::string::StringExecFns;

verus! {

/// Width of the window, in screen coordinates.
pub const WINDOW_WIDTH: u32 = 1280;

/// Height of the window, in screen coordinates.
pub const WINDOW_HEIGHT: u32 = 720;

/// The settings of the one window and GL context the demo runs in.
#[derive(Debug)]
pub struct Engine {
    pub width: u32,
    pub height: u32,
    pub title: String,
    /// Major and minor version of the GL context asked for.
    pub context_version: (u32, u32),
    /// Whether a core profile context is asked for.
    pub core_profile: bool,
    /// Whether a forward-compatible context is asked for.
    pub forward_compat: bool,
    /// Samples per pixel for multisampling.
    pub samples: u32,
}

impl Engine {
    /// A windowed 1280 by 720 window titled "Demo", with a forward-compatible
    /// GL 3.2 core context and 4 times multisampling.
    pub fn new() -> (r: Engine)
        ensures
            r.width == WINDOW_WIDTH,
            r.height == WINDOW_HEIGHT,
            r.title@ == "Demo"@,
            r.context_version == (3u32, 2u32),
            r.core_profile,
            r.forward_compat,
            r.samples == 4,
    {
        Engine {
            width: WINDOW_WIDTH,
            height: WINDOW_HEIGHT,
            title: String::from_str("Demo"),
            context_version: (3, 2),
            core_profile: true,
            forward_compat: true,
            samples: 4,
        }
    }
}

} // verus!
