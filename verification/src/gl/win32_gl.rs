//! The WGL-backed surface and context configuration.

use vstd::prelude::*;

use crate::gl::tokens::{
    ACCELERATION_ARB, COLOR_BITS_ARB, CONTEXT_CORE_PROFILE_BIT_ARB, CONTEXT_DEBUG_BIT_ARB,
    CONTEXT_FLAGS_ARB, CONTEXT_MAJOR_VERSION_ARB, CONTEXT_MINOR_VERSION_ARB,
    CONTEXT_PROFILE_MASK_ARB, DEPTH_BITS_ARB, DOUBLE_BUFFER_ARB, DRAW_TO_WINDOW_ARB,
    FULL_ACCELERATION_ARB, PIXEL_TYPE_ARB, SAMPLES_ARB, STENCIL_BITS_ARB, SUPPORT_OPENGL_ARB,
    TYPE_RGBA_ARB,
};

verus! {

/// The pixel-format attribute list of the default window surface: a
/// hardware-accelerated, double-buffered RGBA format with depth, stencil
/// and four samples, terminated as WGL wants it.
pub fn default_pixel_format_attribs() -> (r: Vec<u32>)
    ensures
        r@ =~= seq![
            DRAW_TO_WINDOW_ARB, 1u32,
            SUPPORT_OPENGL_ARB, 1u32,
            DOUBLE_BUFFER_ARB, 1u32,
            ACCELERATION_ARB, FULL_ACCELERATION_ARB,
            PIXEL_TYPE_ARB, TYPE_RGBA_ARB,
            COLOR_BITS_ARB, 32u32,
            DEPTH_BITS_ARB, 24u32,
            STENCIL_BITS_ARB, 8u32,
            SAMPLES_ARB, 4u32,
            0u32,
        ],
{
    let mut r: Vec<u32> = Vec::new();
    r.push(DRAW_TO_WINDOW_ARB);
    r.push(1);
    r.push(SUPPORT_OPENGL_ARB);
    r.push(1);
    r.push(DOUBLE_BUFFER_ARB);
    r.push(1);
    r.push(ACCELERATION_ARB);
    r.push(FULL_ACCELERATION_ARB);
    r.push(PIXEL_TYPE_ARB);
    r.push(TYPE_RGBA_ARB);
    r.push(COLOR_BITS_ARB);
    r.push(32);
    r.push(DEPTH_BITS_ARB);
    r.push(24);
    r.push(STENCIL_BITS_ARB);
    r.push(8);
    r.push(SAMPLES_ARB);
    r.push(4);
    r.push(0);
    r
}

/// Configuration for a WGL window surface: the pixel-format attributes
/// the chosen format must satisfy.
#[derive(Clone, Debug)]
pub struct GlSurfaceBuilder {
    pub pixel_format_attribs: Vec<u32>,
}

impl GlSurfaceBuilder {
    /// The default configuration.
    pub fn new() -> (b: Self)
        ensures
            b.pixel_format_attribs@ =~= seq![
                DRAW_TO_WINDOW_ARB, 1u32,
                SUPPORT_OPENGL_ARB, 1u32,
                DOUBLE_BUFFER_ARB, 1u32,
                ACCELERATION_ARB, FULL_ACCELERATION_ARB,
                PIXEL_TYPE_ARB, TYPE_RGBA_ARB,
                COLOR_BITS_ARB, 32u32,
                DEPTH_BITS_ARB, 24u32,
                STENCIL_BITS_ARB, 8u32,
                SAMPLES_ARB, 4u32,
                0u32,
            ],
    {
        GlSurfaceBuilder { pixel_format_attribs: default_pixel_format_attribs() }
    }
}

/// Configuration for a WGL rendering context: the version asked for and
/// the context flags.
#[derive(Clone, Copy, Debug, PartialEq, Eq, Structural)]
pub struct GlContextBuilder {
    pub debug: u32,
    pub major: u32,
    pub minor: u32,
}

impl GlContextBuilder {
    /// The default configuration: a 4.3 debug context.
    pub fn new() -> (b: Self)
        ensures b == (GlContextBuilder { debug: CONTEXT_DEBUG_BIT_ARB, major: 4, minor: 3 }),
    {
        GlContextBuilder { debug: CONTEXT_DEBUG_BIT_ARB, major: 4, minor: 3 }
    }

    /// The same configuration asking for another context version.
    pub fn with_version(self, major: u32, minor: u32) -> (b: Self)
        ensures b == (GlContextBuilder { major, minor, ..self }),
    {
        GlContextBuilder { major, minor, ..self }
    }

    /// The same configuration with the debug flag raised.
    pub fn with_debug(self) -> (b: Self)
        ensures b == (GlContextBuilder { debug: self.debug | CONTEXT_DEBUG_BIT_ARB, ..self }),
    {
        GlContextBuilder { debug: self.debug | CONTEXT_DEBUG_BIT_ARB, ..self }
    }

    /// The context attribute list this configuration hands to context
    /// creation: a core-profile context of the asked version, with the
    /// configured flags, terminated as WGL wants it.
    pub fn context_attribs(&self) -> (r: Vec<u32>)
        ensures
            r@ =~= seq![
                CONTEXT_MAJOR_VERSION_ARB, self.major,
                CONTEXT_MINOR_VERSION_ARB, self.minor,
                CONTEXT_PROFILE_MASK_ARB, CONTEXT_CORE_PROFILE_BIT_ARB,
                CONTEXT_FLAGS_ARB, self.debug,
                0u32,
            ],
    {
        let mut r: Vec<u32> = Vec::new();
        r.push(CONTEXT_MAJOR_VERSION_ARB);
        r.push(self.major);
        r.push(CONTEXT_MINOR_VERSION_ARB);
        r.push(self.minor);
        r.push(CONTEXT_PROFILE_MASK_ARB);
        r.push(CONTEXT_CORE_PROFILE_BIT_ARB);
        r.push(CONTEXT_FLAGS_ARB);
        r.push(self.debug);
        r.push(0);
        r
    }
}

} // verus!
