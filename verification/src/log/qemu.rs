//! The emulator debug-port console: the secondary fallback logger. The
//! port write itself is a single privileged instruction outside this
//! library; here the console keeps the transcript of every byte it would
//! emit, escape sequences included.

use vstd::prelude::*;

use crate::display::formatting::{Color, SetFormatting, Style};
use crate::display::fmt::WriteExt;
use crate::log::writer::LogOutput;

verus! {

/// The debug-port console: colors and style are tracked and emitted as
/// ANSI escapes inline with the text.
pub struct QEMUDebugcon {
    fg: Color,
    bg: Color,
    style: Style,
    out: String,
}

impl QEMUDebugcon {
    /// The debug port's conventional address.
    pub const PORT: u16 = 0xE9;

    /// Everything this console has emitted.
    pub closed spec fn transcript(&self) -> Seq<char> {
        self.out@
    }

    /// The transcript, for reading the emitted bytes back.
    pub fn output(&self) -> (r: &String)
        ensures
            r@ == self.transcript(),
    {
        &self.out
    }

    pub fn new() -> (r: Self)
        ensures
            r.fg_color_spec() == Color::Default,
            r.bg_color_spec() == Color::Default,
            r.style_spec() == Style::Unstyled,
            r.transcript() == Seq::<char>::empty(),
    {
        QEMUDebugcon { fg: Color::Default, bg: Color::Default, style: Style::Unstyled, out: String::new() }
    }
}

impl Default for QEMUDebugcon {
    fn default() -> (r: Self)
        ensures
            r.fg_color_spec() == Color::Default,
            r.bg_color_spec() == Color::Default,
            r.style_spec() == Style::Unstyled,
            r.transcript() == Seq::<char>::empty(),
    {
        QEMUDebugcon::new()
    }
}

impl WriteExt for QEMUDebugcon {
    open spec fn text(&self) -> Seq<char> {
        self.transcript()
    }

    fn write_str(&mut self, s: &str) {
        self.out.append(s);
    }
}

impl SetFormatting for QEMUDebugcon {
    closed spec fn fg_color_spec(&self) -> Color {
        self.fg
    }

    closed spec fn bg_color_spec(&self) -> Color {
        self.bg
    }

    closed spec fn style_spec(&self) -> Style {
        self.style
    }

    /// Emits the matching escape sequence along with tracking the color.
    fn set_fg_color(&mut self, color: Color) {
        self.fg = color;
        self.out.append(color.to_ansi_fg());
    }

    fn get_fg_color(&self) -> (r: Color) {
        self.fg
    }

    fn set_bg_color(&mut self, color: Color) {
        self.bg = color;
        self.out.append(color.to_ansi_bg());
    }

    fn get_bg_color(&self) -> (r: Color) {
        self.bg
    }

    /// Emits the reset for a default style, or the new style's escape.
    fn set_style(&mut self, style: Style) {
        let old_style = self.style;
        self.style = style;
        match old_style {
            Style::Default => self.out.append(old_style.ansi_rest()),
            _ => self.out.append(style.to_ansi()),
        }
    }

    fn get_style(&self) -> (r: Style) {
        self.style
    }
}

/// A formatting layer over the debug-port console.
pub fn layer() -> (r: crate::log::layer::fmt::Layer<QEMUDebugcon>)
    ensures
        r.output_spec().indent_spec() == 0,
{
    crate::log::layer::fmt::Layer::new()
}

impl LogOutput for QEMUDebugcon {
    type Writer = QEMUDebugcon;

    /// The debug console is assumed present: it is the fallback of last
    /// resort.
    open spec fn enabled_spec(&self) -> bool {
        true
    }

    fn make_writer(&self) -> Self::Writer {
        QEMUDebugcon::new()
    }

    fn enabled(&self) -> (r: bool) {
        true
    }

    fn line_len(&self) -> usize {
        130
    }
}

} // verus!
