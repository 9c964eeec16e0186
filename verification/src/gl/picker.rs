//! Pixel-format picking.
//!
//! Context creation enumerates candidate pixel formats; a picker sees
//! each one's attributes and remembers the best so far. The attributes a
//! candidate offers arrive as plain values, read off the format by the
//! caller.

use vstd::prelude::*;

verus! {

/// One candidate pixel format, with the attributes the default picker
/// weighs: color depth, whether multisampling exists, and sample count.
#[derive(Clone, Copy, Debug, PartialEq, Eq, Structural)]
pub struct GlPixelFormat {
    /// The native number of this format.
    pub format: usize,
    pub color_bits: i32,
    pub sample_buffers: i32,
    pub samples: i32,
}

/// Something that picks a pixel format from candidates shown one by one:
/// the return is the chosen format's number, or nothing to keep the
/// previous choice. Applications implement this to weigh attributes
/// their own way.
pub trait GlConfigPicker {
    fn pick(&mut self, pixel_format: GlPixelFormat) -> Option<usize>;
}

/// The default rule: prefer more samples, then more color depth.
#[derive(Clone, Copy, Debug, Default, PartialEq, Eq, Structural)]
pub struct GlDefaultPicker {
    pub best_color_bits: i32,
    pub best_sample_buffers: i32,
    pub best_samples: i32,
}

impl GlDefaultPicker {
    /// A picker that has seen nothing yet.
    pub fn new() -> (p: Self)
        ensures
            p.best_color_bits == 0 && p.best_sample_buffers == 0 && p.best_samples == 0,
    {
        GlDefaultPicker { best_color_bits: 0, best_sample_buffers: 0, best_samples: 0 }
    }

    /// The default rule on one candidate: it is chosen exactly when it
    /// offers more samples than the best so far, or otherwise more color
    /// depth; choosing it makes its attributes the ones to beat.
    pub fn select(&mut self, pixel_format: GlPixelFormat) -> (r: Option<usize>)
        ensures
            pixel_format.samples > old(self).best_samples || (pixel_format.samples
                <= old(self).best_samples && pixel_format.color_bits > old(
                self,
            ).best_color_bits) ==> r == Some(pixel_format.format) && *final(self)
                == (GlDefaultPicker {
                best_color_bits: pixel_format.color_bits,
                best_sample_buffers: pixel_format.sample_buffers,
                best_samples: pixel_format.samples,
            }),
            pixel_format.samples <= old(self).best_samples && pixel_format.color_bits <= old(
                self,
            ).best_color_bits ==> r is None && *final(self) == *old(self),
    {
        if pixel_format.samples > self.best_samples {
            self.best_color_bits = pixel_format.color_bits;
            self.best_sample_buffers = pixel_format.sample_buffers;
            self.best_samples = pixel_format.samples;
            return Some(pixel_format.format);
        }
        if pixel_format.color_bits > self.best_color_bits {
            self.best_color_bits = pixel_format.color_bits;
            self.best_sample_buffers = pixel_format.sample_buffers;
            self.best_samples = pixel_format.samples;
            return Some(pixel_format.format);
        }
        None
    }
}

impl GlConfigPicker for GlDefaultPicker {
    fn pick(&mut self, pixel_format: GlPixelFormat) -> Option<usize> {
        self.select(pixel_format)
    }
}

} // verus!
