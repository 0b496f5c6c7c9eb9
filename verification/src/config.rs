//! The startup configuration that decides whether sound is enabled and how
//! the window is opened.

use vstd::prelude::*;

verus! {

/// Startup configuration, filled from the command line.
pub struct GameConfig {
    pub use_fullscreen: bool,
    pub nosound: bool,
    pub screen_w: u32,
    pub screen_h: u32,
}

impl GameConfig {
    /// The defaults: windowed, sound enabled, a 640 by 480 window.
    pub fn new() -> (config: GameConfig)
        ensures
            !config.use_fullscreen,
            !config.nosound,
            config.screen_w == 640,
            config.screen_h == 480,
    {
        GameConfig { use_fullscreen: false, nosound: false, screen_w: 640, screen_h: 480 }
    }
}

} // verus!
