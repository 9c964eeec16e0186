//! OpenGL context- and surface-creation companions.
//!
//! Only the configuration side lives here: attribute lists, version and
//! debug flags, and the pixel-format picking rule. The library calls
//! nothing of OpenGL itself; a consumer feeds these attribute lists to
//! its own WGL, GLX or EGL binding.

pub mod gles;
pub mod glx;
pub mod picker;
pub mod tokens;
pub mod win32_gl;
pub mod win32_opengl;
pub mod x11_gl;
