//! The graphics-output console: a log sink drawing into the framebuffer.

use vstd::prelude::*;

use crate::display::font::FramebufferFont;
use crate::display::formatting::Color;
use crate::display::framebuffer::{advanced, Framebuffer, PixelFormat};
use crate::log::writer::LogOutput;

verus! {

/// A log output over the graphics console.
pub struct GOPConsole {
    framebuffer: Framebuffer,
}

impl GOPConsole {
    /// The wrapped console.
    pub closed spec fn framebuffer_spec(&self) -> Framebuffer {
        self.framebuffer
    }

    pub open spec fn wf(&self) -> bool {
        self.framebuffer_spec().wf()
    }

    /// A console with no pixel memory yet; disabled until graphics come
    /// up.
    pub fn new() -> (r: Self)
        ensures
            r.wf(),
            r.framebuffer_spec().mem().len() == 0,
    {
        GOPConsole { framebuffer: Framebuffer::default() }
    }

    /// Wraps an existing framebuffer.
    pub fn from_framebuffer(framebuffer: Framebuffer) -> (r: Self)
        ensures
            r.framebuffer_spec() == framebuffer,
    {
        GOPConsole { framebuffer }
    }

    /// A console directly over a freshly selected graphics mode.
    pub fn from_uefi(
        width: usize,
        height: usize,
        stride: usize,
        pix_format: PixelFormat,
        font: FramebufferFont,
    ) -> (r: Self)
        requires
            width <= stride,
            stride * height * 4 <= usize::MAX,
            font.wf(),
        ensures
            r.wf(),
            r.framebuffer_spec().width_spec() == width,
            r.framebuffer_spec().height_spec() == height,
            r.framebuffer_spec().cursor_spec() == (0int, 0int),
    {
        GOPConsole { framebuffer: Framebuffer::from_uefi(width, height, stride, pix_format, font) }
    }

    /// Writes text through to the framebuffer's layout engine.
    pub fn write_str(&mut self, s: &str)
        requires
            old(self).wf(),
            vstd::string::is_ascii(s),
            old(self).framebuffer_spec().width_spec() / old(
                self,
            ).framebuffer_spec().font_spec().width_spec() >= 1,
            old(self).framebuffer_spec().height_spec() / old(
                self,
            ).framebuffer_spec().font_spec().height_spec() >= 1,
            0 <= old(self).framebuffer_spec().cursor_spec().0 < old(
                self,
            ).framebuffer_spec().width_spec() / old(self).framebuffer_spec().font_spec().width_spec(),
            0 <= old(self).framebuffer_spec().cursor_spec().1 < old(
                self,
            ).framebuffer_spec().height_spec() / old(
                self,
            ).framebuffer_spec().font_spec().height_spec(),
        ensures
            final(self).wf(),
            final(self).framebuffer_spec().cursor_spec() == advanced(
                old(self).framebuffer_spec().width_spec() / old(
                    self,
                ).framebuffer_spec().font_spec().width_spec(),
                old(self).framebuffer_spec().height_spec() / old(
                    self,
                ).framebuffer_spec().font_spec().height_spec(),
                old(self).framebuffer_spec().cursor_spec(),
                s@,
            ),
    {
        self.framebuffer.write_str(s)
    }

    /// The current foreground color.
    pub fn get_fg_color(&self) -> (r: Color)
        ensures
            r == self.framebuffer_spec().fg_color_spec_fb(),
    {
        self.framebuffer.get_fg_color()
    }

    /// Sets the foreground used for subsequent text.
    pub fn set_fg_color(&mut self, color: Color)
        ensures
            final(self).framebuffer_spec().fg_color_spec_fb() == color,
            final(self).wf() == old(self).wf(),
            final(self).framebuffer_spec().cursor_spec() == old(
                self,
            ).framebuffer_spec().cursor_spec(),
            final(self).framebuffer_spec().mem() == old(self).framebuffer_spec().mem(),
    {
        self.framebuffer.set_fg_color(color)
    }

    /// Hands the framebuffer back.
    pub fn into_framebuffer(self) -> (r: Framebuffer)
        ensures
            r == self.framebuffer_spec(),
    {
        self.framebuffer
    }
}

/// A formatting layer over a graphics console.
pub fn framebuffer_layer(framebuffer: Framebuffer) -> (r: crate::log::layer::fmt::Layer<
    GOPConsole,
>)
    ensures
        r.output_spec().writer_spec().framebuffer_spec() == framebuffer,
{
    crate::log::layer::fmt::Layer::from_writer(GOPConsole::from_framebuffer(framebuffer))
}

impl LogOutput for GOPConsole {
    type Writer = GOPConsole;

    /// Enabled once real pixel memory is behind it.
    open spec fn enabled_spec(&self) -> bool {
        self.framebuffer_spec().mem().len() > 0
    }

    /// A writer drawing into a console over the same mode. The hardware
    /// pixel memory is shared between them; the model clones it.
    fn make_writer(&self) -> Self::Writer {
        GOPConsole { framebuffer: self.framebuffer.clone() }
    }

    fn enabled(&self) -> (r: bool) {
        self.framebuffer.has_memory()
    }

    fn line_len(&self) -> usize {
        let fw = self.framebuffer.font().width();
        if fw == 0 {
            80
        } else {
            self.framebuffer.width() / fw
        }
    }
}

} // verus!
