//! The configuration of the window.
use crate::corange::{flag, flag_of, is_nul_free, nul_free};
use crate::engine::EngineCall;
use crate::staged::ConfigValue;
use vstd::prelude::*;

verus! {

/// What the window shall be.
#[derive(Clone, Debug, PartialEq)]
pub struct Viewport {
    pub title: String,
    pub width: usize,
    pub height: usize,
    pub fullscreen: bool,
    pub antialiasing: usize,
    pub multisampling: usize,
}

/// The largest number that the engine takes for a dimension or a level.
pub const ENGINE_INT_MAX: usize = 0x7fff_ffff;

impl Viewport {
    /// Whether the engine can take every number of the configuration as it
    /// stands: the width, the height and the two levels are at most
    /// `ENGINE_INT_MAX`.
    pub open spec fn fits_engine(&self) -> bool {
        &&& self.width <= ENGINE_INT_MAX
        &&& self.height <= ENGINE_INT_MAX
        &&& self.antialiasing <= ENGINE_INT_MAX
        &&& self.multisampling <= ENGINE_INT_MAX
    }

    /// Whether the configuration may be put in force: the engine can take
    /// its numbers, the window has an area, that is a width and a height of
    /// at least 1, and the title holds no NUL.
    pub open spec fn well_formed(&self) -> bool {
        &&& self.fits_engine()
        &&& 1 <= self.width
        &&& 1 <= self.height
        &&& nul_free(self.title@)
    }

    /// Whether this is the window that a program gets if it asks for
    /// nothing: 1280 by 720, called "Output", not full screen, with no
    /// antialiasing and no multisampling.
    pub open spec fn is_default(&self) -> bool {
        &&& self.title@ == "Output"@
        &&& self.width == 1280
        &&& self.height == 720
        &&& !self.fullscreen
        &&& self.antialiasing == 0
        &&& self.multisampling == 0
    }

    /// The calls that put the configuration in force, in their order: the
    /// title, the size, the two levels, then full screen.
    pub open spec fn apply_calls(&self) -> Seq<EngineCall> {
        seq![
            EngineCall::ViewportSetTitle(self.title),
            EngineCall::ViewportSetSize(self.width as i32, self.height as i32),
            EngineCall::SetAntialiasing(self.antialiasing as i32),
            EngineCall::SetMultisamples(self.multisampling as i32),
            EngineCall::SetFullscreen(flag(self.fullscreen)),
        ]
    }

    /// The calls that put the configuration in force.
    pub fn apply(&self) -> (calls: Vec<EngineCall>)
        requires
            self.fits_engine(),
        ensures
            calls@ == self.apply_calls(),
    {
        let mut calls = Vec::new();
        calls.push(EngineCall::ViewportSetTitle(self.title.clone()));
        calls.push(EngineCall::ViewportSetSize(self.width as i32, self.height as i32));
        calls.push(EngineCall::SetAntialiasing(self.antialiasing as i32));
        calls.push(EngineCall::SetMultisamples(self.multisampling as i32));
        calls.push(EngineCall::SetFullscreen(flag_of(self.fullscreen)));
        calls
    }
}

impl ConfigValue for Viewport {
    open spec fn valid(&self) -> bool {
        self.well_formed()
    }

    fn is_valid(&self) -> (ok: bool) {
        1 <= self.width && self.width <= ENGINE_INT_MAX && 1 <= self.height && self.height
            <= ENGINE_INT_MAX && self.antialiasing <= ENGINE_INT_MAX && self.multisampling
            <= ENGINE_INT_MAX && is_nul_free(self.title.as_str())
    }
}

impl Default for Viewport {
    /// The default window, which is well formed.
    fn default() -> (viewport: Viewport)
        ensures
            viewport.is_default(),
            viewport.well_formed(),
    {
        proof {
            reveal_strlit("Output");
        }
        Viewport {
            title: "Output".to_owned(),
            width: 1280,
            height: 720,
            fullscreen: false,
            antialiasing: 0,
            multisampling: 0,
        }
    }
}

} // verus!
