//! The configuration of the renderer.
use crate::corange::{flag, flag_of, is_nul_free, nul_free, Scalar};
use crate::engine::EngineCall;
use crate::staged::ConfigValue;
use vstd::prelude::*;

verus! {

/// What the renderer shall do.
#[derive(Clone, Debug, PartialEq)]
pub struct Renderer {
    /// The path of the options file that the renderer is made from.
    pub configuration: String,
    pub color_correction_texture: Option<String>,
    pub vignetting_texture: Option<String>,
    pub texture_noise: Scalar,
    pub sea_enabled: bool,
    pub sky_enabled: bool,
    /// The time of day of the sky.
    pub sky_time: Scalar,
}

/// Whether a path that may be absent holds no NUL.
pub open spec fn path_ok(path: Option<String>) -> bool {
    path matches Some(p) ==> nul_free(p@)
}

/// The call that `make` builds from the path, if there is a path.
pub open spec fn texture_calls(path: Option<String>, make: spec_fn(String) -> EngineCall) -> Seq<
    EngineCall,
> {
    match path {
        Some(p) => seq![make(p)],
        None => Seq::empty(),
    }
}

impl Renderer {
    /// Whether the engine can take the configuration: the two numbers are
    /// finite, and no path holds a NUL.
    pub open spec fn well_formed(&self) -> bool {
        &&& nul_free(self.configuration@)
        &&& path_ok(self.color_correction_texture)
        &&& path_ok(self.vignetting_texture)
        &&& self.texture_noise.finite()
        &&& self.sky_time.finite()
    }

    /// Whether this is the renderer that a program gets if it asks for
    /// nothing: made from "renderer.cfg", without textures, without noise,
    /// with neither sea nor sky, and with 0.15 for the time of day.
    pub open spec fn is_default(&self) -> bool {
        &&& self.configuration@ == "renderer.cfg"@
        &&& self.color_correction_texture is None
        &&& self.vignetting_texture is None
        &&& self.texture_noise.bits == 0
        &&& !self.sea_enabled
        &&& !self.sky_enabled
        &&& self.sky_time.bits == DEFAULT_SKY_TIME_BITS
    }

    /// The calls that put the configuration in force, in their order: the
    /// noise, the sky, the sea, the time of day with the seed 0, then the
    /// colour correction and the vignetting, each only if it has a texture.
    pub open spec fn apply_calls(&self) -> Seq<EngineCall> {
        seq![
            EngineCall::RendererSetGlitch(self.texture_noise),
            EngineCall::RendererSetSkydomeEnabled(flag(self.sky_enabled)),
            EngineCall::RendererSetSeaEnabled(flag(self.sea_enabled)),
            EngineCall::RendererSetTod(self.sky_time, 0),
        ] + texture_calls(
            self.color_correction_texture,
            |p: String| EngineCall::RendererSetColorCorrection(p),
        ) + texture_calls(self.vignetting_texture, |p: String| EngineCall::RendererSetVignetting(p))
    }

    /// The calls that make the renderer and put the configuration in force:
    /// the renderer is made from the options file, then configured.
    pub open spec fn initialize_calls(&self) -> Seq<EngineCall> {
        seq![EngineCall::RendererNew(self.configuration)] + self.apply_calls()
    }

    /// Adds to `calls` the calls that put the configuration in force.
    fn push_apply_calls(&self, calls: &mut Vec<EngineCall>)
        ensures
            final(calls)@ == old(calls)@ + self.apply_calls(),
    {
        calls.push(EngineCall::RendererSetGlitch(self.texture_noise));
        calls.push(EngineCall::RendererSetSkydomeEnabled(flag_of(self.sky_enabled)));
        calls.push(EngineCall::RendererSetSeaEnabled(flag_of(self.sea_enabled)));
        calls.push(EngineCall::RendererSetTod(self.sky_time, 0));
        match &self.color_correction_texture {
            Some(texture) => {
                calls.push(EngineCall::RendererSetColorCorrection(texture.clone()));
            },
            None => {},
        }
        match &self.vignetting_texture {
            Some(texture) => {
                calls.push(EngineCall::RendererSetVignetting(texture.clone()));
            },
            None => {},
        }
    }

    /// The calls that make the renderer and put the configuration in force.
    pub fn initialize(&self) -> (calls: Vec<EngineCall>)
        ensures
            calls@ == self.initialize_calls(),
    {
        let mut calls = Vec::new();
        calls.push(EngineCall::RendererNew(self.configuration.clone()));
        self.push_apply_calls(&mut calls);
        calls
    }

    /// The calls that put the configuration in force.
    pub fn apply(&self) -> (calls: Vec<EngineCall>)
        ensures
            calls@ == self.apply_calls(),
    {
        let mut calls = Vec::new();
        self.push_apply_calls(&mut calls);
        calls
    }
}

/// Whether a path that may be absent holds no NUL.
fn is_path_ok(path: &Option<String>) -> (ok: bool)
    ensures
        ok == path_ok(*path),
{
    match path {
        Some(p) => is_nul_free(p.as_str()),
        None => true,
    }
}

impl ConfigValue for Renderer {
    open spec fn valid(&self) -> bool {
        self.well_formed()
    }

    fn is_valid(&self) -> (ok: bool) {
        is_nul_free(self.configuration.as_str()) && is_path_ok(&self.color_correction_texture)
            && is_path_ok(&self.vignetting_texture) && self.texture_noise.is_finite()
            && self.sky_time.is_finite()
    }
}

/// The encoding of 0.15, the time of day of the default sky.
pub const DEFAULT_SKY_TIME_BITS: u32 = 0x3e19_999a;

impl Default for Renderer {
    /// The default renderer, which is well formed.
    fn default() -> (renderer: Renderer)
        ensures
            renderer.is_default(),
            renderer.well_formed(),
    {
        proof {
            reveal_strlit("renderer.cfg");
        }
        Renderer {
            configuration: "renderer.cfg".to_owned(),
            color_correction_texture: None,
            vignetting_texture: None,
            texture_noise: Scalar::zero(),
            sea_enabled: false,
            sky_enabled: false,
            sky_time: Scalar::from_bits(DEFAULT_SKY_TIME_BITS),
        }
    }
}

} // verus!
