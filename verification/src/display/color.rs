//! Colored writers: independent foreground and background color state, and
//! guards that restore the previous color when a scope of colored output
//! finishes.

use vstd::prelude::*;

use crate::display::fmt::WriteExt;

verus! {

/// The ANSI palette plus direct RGB.
#[derive(Clone, Copy, PartialEq, Eq, Structural, Debug)]
pub enum Color {
    Default,
    Black,
    Red,
    Green,
    Yellow,
    Blue,
    Magenta,
    Cyan,
    White,
    BrightBlack,
    BrightRed,
    BrightGreen,
    BrightYellow,
    BrightBlue,
    BrightMagenta,
    BrightCyan,
    BrightWhite,
    Rgb(u8, u8, u8),
}

/// A writer with a settable foreground color.
pub trait SetFgColor: Sized {
    /// The current foreground color.
    spec fn fg_color_spec(&self) -> Color;

    fn set_fg_color(&mut self, color: Color)
        ensures
            final(self).fg_color_spec() == color,
    ;

    fn get_fg_color(&self) -> (r: Color)
        ensures
            r == self.fg_color_spec(),
    ;

    /// Applies a foreground color for a bounded scope; the guard's
    /// [`WithFgColor::finish`] restores what was set before.
    fn with_fg_color(self, color: Color) -> (r: WithFgColor<Self>)
        ensures
            r.writer().fg_color_spec() == color,
            r.old_fg_color() == self.fg_color_spec(),
    {
        let mut writer = self;
        let prev_fg = writer.get_fg_color();
        writer.set_fg_color(color);
        WithFgColor { writer, old_fg_color: prev_fg }
    }
}

/// A writer with a settable background color.
pub trait SetBgColor: Sized {
    /// The current background color.
    spec fn bg_color_spec(&self) -> Color;

    fn set_bg_color(&mut self, color: Color)
        ensures
            final(self).bg_color_spec() == color,
    ;

    fn get_bg_color(&self) -> (r: Color)
        ensures
            r == self.bg_color_spec(),
    ;

    /// Applies a background color for a bounded scope.
    fn with_bg_color(self, color: Color) -> (r: WithBgColor<Self>)
        ensures
            r.writer().bg_color_spec() == color,
            r.old_bg_color() == self.bg_color_spec(),
    {
        let mut writer = self;
        let prev_bg = writer.get_bg_color();
        writer.set_bg_color(color);
        WithBgColor { writer, old_bg_color: prev_bg }
    }
}

/// A writer with both colors settable at once.
pub trait SetColors: SetFgColor + SetBgColor {
    fn set_colors(&mut self, fg_color: Color, bg_color: Color)
        ensures
            final(self).fg_color_spec() == fg_color,
            final(self).bg_color_spec() == bg_color,
    ;

    /// Applies both colors for a bounded scope.
    fn with_colors(self, fg_color: Color, bg_color: Color) -> (r: WithColors<Self>)
        ensures
            r.writer().fg_color_spec() == fg_color,
            r.writer().bg_color_spec() == bg_color,
            r.old_fg_color() == self.fg_color_spec(),
            r.old_bg_color() == self.bg_color_spec(),
    {
        let mut writer = self;
        let prev_fg = writer.get_fg_color();
        let prev_bg = writer.get_bg_color();
        writer.set_colors(fg_color, bg_color);
        WithColors { writer, old_fg_color: prev_fg, old_bg_color: prev_bg }
    }
}

/// A writer carrying a temporary foreground color.
pub struct WithFgColor<W> {
    writer: W,
    old_fg_color: Color,
}

impl<W> WithFgColor<W> {
    pub closed spec fn writer(&self) -> W {
        self.writer
    }

    pub closed spec fn old_fg_color(&self) -> Color {
        self.old_fg_color
    }
}

impl<W: SetFgColor> WithFgColor<W> {
    /// Restores the previous foreground and hands the writer back.
    pub fn finish(self) -> (r: W)
        ensures
            r.fg_color_spec() == self.old_fg_color(),
    {
        let mut writer = self.writer;
        writer.set_fg_color(self.old_fg_color);
        writer
    }
}

impl<W: SetFgColor + WriteExt> WithFgColor<W> {
    /// Writes through to the wrapped writer.
    pub fn write_str(&mut self, s: &str)
        ensures
            final(self).writer().text() == old(self).writer().text() + s@,
            final(self).old_fg_color() == old(self).old_fg_color(),
    {
        self.writer.write_str(s)
    }
}

/// A writer carrying a temporary background color.
pub struct WithBgColor<W> {
    writer: W,
    old_bg_color: Color,
}

impl<W> WithBgColor<W> {
    pub closed spec fn writer(&self) -> W {
        self.writer
    }

    pub closed spec fn old_bg_color(&self) -> Color {
        self.old_bg_color
    }
}

impl<W: SetBgColor> WithBgColor<W> {
    /// Restores the previous background and hands the writer back.
    pub fn finish(self) -> (r: W)
        ensures
            r.bg_color_spec() == self.old_bg_color(),
    {
        let mut writer = self.writer;
        writer.set_bg_color(self.old_bg_color);
        writer
    }
}

impl<W: SetBgColor + WriteExt> WithBgColor<W> {
    /// Writes through to the wrapped writer.
    pub fn write_str(&mut self, s: &str)
        ensures
            final(self).writer().text() == old(self).writer().text() + s@,
            final(self).old_bg_color() == old(self).old_bg_color(),
    {
        self.writer.write_str(s)
    }
}

/// A writer carrying temporary foreground and background colors.
pub struct WithColors<W> {
    writer: W,
    old_fg_color: Color,
    old_bg_color: Color,
}

impl<W> WithColors<W> {
    pub closed spec fn writer(&self) -> W {
        self.writer
    }

    pub closed spec fn old_fg_color(&self) -> Color {
        self.old_fg_color
    }

    pub closed spec fn old_bg_color(&self) -> Color {
        self.old_bg_color
    }
}

impl<W: SetColors> WithColors<W> {
    /// Restores both previous colors and hands the writer back.
    pub fn finish(self) -> (r: W)
        ensures
            r.fg_color_spec() == self.old_fg_color(),
            r.bg_color_spec() == self.old_bg_color(),
    {
        let mut writer = self.writer;
        writer.set_colors(self.old_fg_color, self.old_bg_color);
        writer
    }
}

impl<W: SetColors + WriteExt> WithColors<W> {
    /// Writes through to the wrapped writer.
    pub fn write_str(&mut self, s: &str)
        ensures
            final(self).writer().text() == old(self).writer().text() + s@,
            final(self).old_fg_color() == old(self).old_fg_color(),
            final(self).old_bg_color() == old(self).old_bg_color(),
    {
        self.writer.write_str(s)
    }
}

} // verus!
