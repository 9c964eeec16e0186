//! The attribute tokens the configuration builders speak, by their
//! standard names and values: the ARB pixel-format and context tokens of
//! WGL, and the surface tokens of EGL.

use vstd::prelude::*;

verus! {

pub const DRAW_TO_WINDOW_ARB: u32 = 0x2001;
pub const ACCELERATION_ARB: u32 = 0x2003;
pub const SUPPORT_OPENGL_ARB: u32 = 0x2010;
pub const DOUBLE_BUFFER_ARB: u32 = 0x2011;
pub const PIXEL_TYPE_ARB: u32 = 0x2013;
pub const COLOR_BITS_ARB: u32 = 0x2014;
pub const DEPTH_BITS_ARB: u32 = 0x2022;
pub const STENCIL_BITS_ARB: u32 = 0x2023;
pub const FULL_ACCELERATION_ARB: u32 = 0x2027;
pub const TYPE_RGBA_ARB: u32 = 0x202B;
pub const SAMPLE_BUFFERS_ARB: u32 = 0x2041;
pub const SAMPLES_ARB: u32 = 0x2042;
pub const CONTEXT_MAJOR_VERSION_ARB: u32 = 0x2091;
pub const CONTEXT_MINOR_VERSION_ARB: u32 = 0x2092;
pub const CONTEXT_FLAGS_ARB: u32 = 0x2094;
pub const CONTEXT_PROFILE_MASK_ARB: u32 = 0x9126;
pub const CONTEXT_DEBUG_BIT_ARB: u32 = 0x0001;
pub const CONTEXT_CORE_PROFILE_BIT_ARB: u32 = 0x0001;

pub const EGL_ALPHA_SIZE: u32 = 0x3021;
pub const EGL_BLUE_SIZE: u32 = 0x3022;
pub const EGL_GREEN_SIZE: u32 = 0x3023;
pub const EGL_RED_SIZE: u32 = 0x3024;
pub const EGL_SURFACE_TYPE: u32 = 0x3033;
pub const EGL_WINDOW_BIT: u32 = 0x0004;
pub const EGL_NONE: u32 = 0x3038;

} // verus!
