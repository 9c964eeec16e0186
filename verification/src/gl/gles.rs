//! The EGL-backed surface configuration.

use vstd::prelude::*;

use crate::gl::tokens::{
    EGL_ALPHA_SIZE, EGL_BLUE_SIZE, EGL_GREEN_SIZE, EGL_NONE, EGL_RED_SIZE, EGL_SURFACE_TYPE,
    EGL_WINDOW_BIT,
};

verus! {

/// Configuration for an EGL window surface: the channel sizes the chosen
/// configuration must offer.
#[derive(Clone, Copy, Debug, Default, PartialEq, Eq, Structural)]
pub struct GlSurfaceBuilder {
    pub alpha_size: u32,
    pub blue_size: u32,
    pub red_size: u32,
    pub green_size: u32,
    pub depth_size: u32,
    pub samples: u32,
    pub stencil_size: u32,
}

impl GlSurfaceBuilder {
    /// The default configuration: eight bits per channel.
    pub fn new() -> (b: Self)
        ensures
            b.red_size == 8 && b.green_size == 8 && b.blue_size == 8 && b.alpha_size == 8,
            b.depth_size == 0 && b.samples == 0 && b.stencil_size == 0,
    {
        GlSurfaceBuilder {
            red_size: 8,
            green_size: 8,
            blue_size: 8,
            alpha_size: 8,
            depth_size: 0,
            samples: 0,
            stencil_size: 0,
        }
    }

    /// The attribute list this configuration asks of the configuration
    /// chooser, terminated as EGL wants it.
    pub fn attrib_list(&self) -> (r: Vec<u32>)
        ensures
            r@ =~= seq![
                EGL_SURFACE_TYPE, EGL_WINDOW_BIT,
                EGL_BLUE_SIZE, self.blue_size,
                EGL_GREEN_SIZE, self.green_size,
                EGL_RED_SIZE, self.red_size,
                EGL_ALPHA_SIZE, self.alpha_size,
                EGL_NONE,
            ],
    {
        let mut r: Vec<u32> = Vec::new();
        r.push(EGL_SURFACE_TYPE);
        r.push(EGL_WINDOW_BIT);
        r.push(EGL_BLUE_SIZE);
        r.push(self.blue_size);
        r.push(EGL_GREEN_SIZE);
        r.push(self.green_size);
        r.push(EGL_RED_SIZE);
        r.push(self.red_size);
        r.push(EGL_ALPHA_SIZE);
        r.push(self.alpha_size);
        r.push(EGL_NONE);
        r
    }
}

} // verus!
