//! The firmware text console: the stop-gap logger before graphics come
//! up. The firmware call that prints a string lives outside this library;
//! here the console keeps the transcript, the colors it has been set to,
//! and its line geometry.

use vstd::prelude::*;

use crate::display::formatting::{self, SetFormatting};
use crate::display::fmt::WriteExt;
use crate::display::style::{self, SetStyle};
use crate::log::writer::LogOutput;

verus! {

/// The firmware text console. It renders colors but no styles.
pub struct TXTConsole {
    out: String,
    columns: usize,
    _style: style::Style,
    _fmt_style: formatting::Style,
    _fg_color: formatting::Color,
    _bg_color: formatting::Color,
}

impl TXTConsole {
    /// Everything printed so far.
    pub closed spec fn transcript(&self) -> Seq<char> {
        self.out@
    }

    /// The console's line width in characters.
    pub closed spec fn columns_spec(&self) -> int {
        self.columns as int
    }

    /// The transcript, for reading the printed text back.
    pub fn output(&self) -> (r: &String)
        ensures
            r@ == self.transcript(),
    {
        &self.out
    }

    pub fn new() -> (r: Self)
        ensures
            r.transcript() == Seq::<char>::empty(),
            r.columns_spec() == 80,
            r.fg_color_spec() == formatting::Color::Default,
            r.bg_color_spec() == formatting::Color::Black,
    {
        TXTConsole {
            out: String::new(),
            columns: 80,
            _style: style::Style::Unstyled,
            _fmt_style: formatting::Style::Unstyled,
            _fg_color: formatting::Color::Default,
            _bg_color: formatting::Color::Black,
        }
    }
}

impl Default for TXTConsole {
    fn default() -> (r: Self)
        ensures
            r.transcript() == Seq::<char>::empty(),
            r.columns_spec() == 80,
            r.fg_color_spec() == formatting::Color::Default,
            r.bg_color_spec() == formatting::Color::Black,
    {
        TXTConsole::new()
    }
}

impl WriteExt for TXTConsole {
    open spec fn text(&self) -> Seq<char> {
        self.transcript()
    }

    fn write_str(&mut self, s: &str) {
        self.out.append(s);
    }
}

impl SetFormatting for TXTConsole {
    closed spec fn fg_color_spec(&self) -> formatting::Color {
        self._fg_color
    }

    closed spec fn bg_color_spec(&self) -> formatting::Color {
        self._bg_color
    }

    closed spec fn style_spec(&self) -> formatting::Style {
        self._fmt_style
    }

    fn set_fg_color(&mut self, color: formatting::Color) {
        self._fg_color = color;
    }

    fn get_fg_color(&self) -> (r: formatting::Color) {
        self._fg_color
    }

    fn set_bg_color(&mut self, color: formatting::Color) {
        self._bg_color = color;
    }

    fn get_bg_color(&self) -> (r: formatting::Color) {
        self._bg_color
    }

    /// The text protocol renders no styles; the setting is only tracked.
    fn set_style(&mut self, style_arg: formatting::Style) {
        self._fmt_style = style_arg;
    }

    fn get_style(&self) -> (r: formatting::Style) {
        self._fmt_style
    }
}

impl SetStyle for TXTConsole {
    closed spec fn style_spec(&self) -> style::Style {
        self._style
    }

    /// The text protocol renders no styles; the setting is only tracked.
    fn set_style(&mut self, style_arg: style::Style) {
        self._style = style_arg;
    }

    fn get_style(&self) -> (r: style::Style) {
        self._style
    }
}

impl LogOutput for TXTConsole {
    type Writer = TXTConsole;

    /// The text console is available whenever boot services are; the model
    /// keeps it on.
    open spec fn enabled_spec(&self) -> bool {
        true
    }

    fn make_writer(&self) -> Self::Writer {
        TXTConsole::new()
    }

    fn enabled(&self) -> (r: bool) {
        true
    }

    fn line_len(&self) -> usize {
        self.columns
    }
}

} // verus!
