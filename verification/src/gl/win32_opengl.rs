//! The plain-OpenGL display and context configuration of the Win32
//! flavour that predates the pixel-format extensions.

use vstd::prelude::*;

use crate::gl::tokens::{
    ACCELERATION_ARB, COLOR_BITS_ARB, CONTEXT_CORE_PROFILE_BIT_ARB, CONTEXT_DEBUG_BIT_ARB,
    CONTEXT_FLAGS_ARB, CONTEXT_MAJOR_VERSION_ARB, CONTEXT_MINOR_VERSION_ARB,
    CONTEXT_PROFILE_MASK_ARB, DEPTH_BITS_ARB, DOUBLE_BUFFER_ARB, DRAW_TO_WINDOW_ARB,
    FULL_ACCELERATION_ARB, PIXEL_TYPE_ARB, STENCIL_BITS_ARB, SUPPORT_OPENGL_ARB, TYPE_RGBA_ARB,
};

verus! {

/// Configuration for a display surface: the pixel-format attributes the
/// chosen format must satisfy.
#[derive(Clone, Debug)]
pub struct GlDisplayBuilder {
    pub pixel_format_attribs: Vec<u32>,
}

impl GlDisplayBuilder {
    /// The default configuration: an accelerated, double-buffered RGBA
    /// format with depth and stencil, terminated as WGL wants it.
    pub fn new() -> (b: Self)
        ensures
            b.pixel_format_attribs@ =~= seq![
                DRAW_TO_WINDOW_ARB, 1u32,
                SUPPORT_OPENGL_ARB, 1u32,
                DOUBLE_BUFFER_ARB, 1u32,
                ACCELERATION_ARB, FULL_ACCELERATION_ARB,
                PIXEL_TYPE_ARB, TYPE_RGBA_ARB,
                COLOR_BITS_ARB, 32u32,
                DEPTH_BITS_ARB, 24u32,
                STENCIL_BITS_ARB, 8u32,
                0u32,
            ],
    {
        let mut r: Vec<u32> = Vec::new();
        r.push(DRAW_TO_WINDOW_ARB);
        r.push(1);
        r.push(SUPPORT_OPENGL_ARB);
        r.push(1);
        r.push(DOUBLE_BUFFER_ARB);
        r.push(1);
        r.push(ACCELERATION_ARB);
        r.push(FULL_ACCELERATION_ARB);
        r.push(PIXEL_TYPE_ARB);
        r.push(TYPE_RGBA_ARB);
        r.push(COLOR_BITS_ARB);
        r.push(32);
        r.push(DEPTH_BITS_ARB);
        r.push(24);
        r.push(STENCIL_BITS_ARB);
        r.push(8);
        r.push(0);
        GlDisplayBuilder { pixel_format_attribs: r }
    }
}

/// Configuration for a rendering context, kept as the raw attribute
/// array: version tokens at the fixed places the original layout used.
#[derive(Clone, Copy, Debug)]
pub struct GlContextBuilder {
    pub context_attribs: [u32; 9],
}

impl GlContextBuilder {
    /// The default configuration: a 3.0 core-profile context.
    pub fn new() -> (b: Self)
        ensures
            b.context_attribs@ =~= seq![
                CONTEXT_MAJOR_VERSION_ARB, 3u32,
                CONTEXT_MINOR_VERSION_ARB, 0u32,
                CONTEXT_PROFILE_MASK_ARB, CONTEXT_CORE_PROFILE_BIT_ARB,
                CONTEXT_FLAGS_ARB, 0u32,
                0u32,
            ],
    {
        let r: [u32; 9] = [
            CONTEXT_MAJOR_VERSION_ARB,
            3,
            CONTEXT_MINOR_VERSION_ARB,
            0,
            CONTEXT_PROFILE_MASK_ARB,
            CONTEXT_CORE_PROFILE_BIT_ARB,
            CONTEXT_FLAGS_ARB,
            0,
            0,
        ];
        GlContextBuilder { context_attribs: r }
    }

    /// Asks for another context version, in place.
    pub fn with_version(&mut self, major: i32, minor: i32)
        ensures
            final(self).context_attribs@ =~= old(self).context_attribs@.update(
                1,
                major as u32,
            ).update(3, minor as u32),
    {
        self.context_attribs[1] = #[verifier::truncate] (major as u32);
        self.context_attribs[3] = #[verifier::truncate] (minor as u32);
    }

    /// Raises the debug flag, in place.
    pub fn with_debug(&mut self)
        ensures
            final(self).context_attribs@ =~= old(self).context_attribs@.update(
                7,
                old(self).context_attribs@[7] | CONTEXT_DEBUG_BIT_ARB,
            ),
    {
        self.context_attribs[7] = self.context_attribs[7] | CONTEXT_DEBUG_BIT_ARB;
    }
}

} // verus!
