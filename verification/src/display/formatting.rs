//! Console formatting state: colors, styles, their ANSI escape sequences,
//! and a guard that restores a writer's previous formatting when finished.

use vstd::prelude::*;

use crate::display::fmt::WriteExt;

verus! {

/// The ANSI palette plus direct RGB.
#[derive(Clone, Copy, PartialEq, Eq, Structural, Debug)]
pub enum Color {
    Default,
    Black,
    Red,
    Green,
    Yellow,
    Blue,
    Magenta,
    Cyan,
    White,
    BrightBlack,
    BrightRed,
    BrightGreen,
    BrightYellow,
    BrightBlue,
    BrightMagenta,
    BrightCyan,
    BrightWhite,
    Rgb(u8, u8, u8),
}

/// The escape sequence that sets `color` as the foreground.
pub open spec fn ansi_fg_spec(color: Color) -> Seq<char> {
    match color {
        Color::Black => "\x1b[0;30m"@,
        Color::Red => "\x1b[0;31"@,
        Color::Green => "\x1b[0;32m"@,
        Color::Yellow => "\x1b[0;33m"@,
        Color::Blue => "\x1b[0;34m"@,
        Color::Magenta => "\x1b[0;35m"@,
        Color::Cyan => "\x1b[0;36m"@,
        Color::White => "\x1b[0;37m"@,
        Color::BrightBlack => "\x1b[0;90m"@,
        Color::BrightRed => "\x1b[0;91m"@,
        Color::BrightGreen => "\x1b[0;92m"@,
        Color::BrightYellow => "\x1b[0;93m"@,
        Color::BrightBlue => "\x1b[0;94m"@,
        Color::BrightMagenta => "\x1b[0;95m"@,
        Color::BrightCyan => "\x1b[0;96m"@,
        Color::BrightWhite => "\x1b[0;97m"@,
        _ => "\x1b[0m"@,
    }
}

/// The escape sequence that sets `color` as the background.
pub open spec fn ansi_bg_spec(color: Color) -> Seq<char> {
    match color {
        Color::Black => "\x1b[0;40m"@,
        Color::Red => "\x1b[0;41"@,
        Color::Green => "\x1b[0;42m"@,
        Color::Yellow => "\x1b[0;43m"@,
        Color::Blue => "\x1b[0;44m"@,
        Color::Magenta => "\x1b[0;45m"@,
        Color::Cyan => "\x1b[0;46m"@,
        Color::White => "\x1b[0;47m"@,
        Color::BrightBlack => "\x1b[0;100m"@,
        Color::BrightRed => "\x1b[0;101m"@,
        Color::BrightGreen => "\x1b[0;102m"@,
        Color::BrightYellow => "\x1b[0;103m"@,
        Color::BrightBlue => "\x1b[0;104m"@,
        Color::BrightMagenta => "\x1b[0;105m"@,
        Color::BrightCyan => "\x1b[0;106m"@,
        Color::BrightWhite => "\x1b[0;107m"@,
        _ => "\x1b[0m"@,
    }
}

impl Color {
    /// The escape sequence selecting this color as the foreground. Colors
    /// without a palette slot reset instead.
    pub fn to_ansi_fg(&self) -> (r: &'static str)
        ensures
            r@ == ansi_fg_spec(*self),
    {
        match self {
            Color::Black => "\x1b[0;30m",
            Color::Red => "\x1b[0;31",
            Color::Green => "\x1b[0;32m",
            Color::Yellow => "\x1b[0;33m",
            Color::Blue => "\x1b[0;34m",
            Color::Magenta => "\x1b[0;35m",
            Color::Cyan => "\x1b[0;36m",
            Color::White => "\x1b[0;37m",
            Color::BrightBlack => "\x1b[0;90m",
            Color::BrightRed => "\x1b[0;91m",
            Color::BrightGreen => "\x1b[0;92m",
            Color::BrightYellow => "\x1b[0;93m",
            Color::BrightBlue => "\x1b[0;94m",
            Color::BrightMagenta => "\x1b[0;95m",
            Color::BrightCyan => "\x1b[0;96m",
            Color::BrightWhite => "\x1b[0;97m",
            _ => "\x1b[0m",
        }
    }

    /// The escape sequence selecting this color as the background.
    pub fn to_ansi_bg(&self) -> (r: &'static str)
        ensures
            r@ == ansi_bg_spec(*self),
    {
        match self {
            Color::Black => "\x1b[0;40m",
            Color::Red => "\x1b[0;41",
            Color::Green => "\x1b[0;42m",
            Color::Yellow => "\x1b[0;43m",
            Color::Blue => "\x1b[0;44m",
            Color::Magenta => "\x1b[0;45m",
            Color::Cyan => "\x1b[0;46m",
            Color::White => "\x1b[0;47m",
            Color::BrightBlack => "\x1b[0;100m",
            Color::BrightRed => "\x1b[0;101m",
            Color::BrightGreen => "\x1b[0;102m",
            Color::BrightYellow => "\x1b[0;103m",
            Color::BrightBlue => "\x1b[0;104m",
            Color::BrightMagenta => "\x1b[0;105m",
            Color::BrightCyan => "\x1b[0;106m",
            Color::BrightWhite => "\x1b[0;107m",
            _ => "\x1b[0m",
        }
    }

    /// The palette's RGB value for this color: a soft dark theme, with
    /// direct RGB passed through.
    pub fn theme_rgb(&self) -> (r: (u8, u8, u8))
        ensures
            r == theme_rgb_spec(*self),
    {
        match self {
            Color::Default => (224, 222, 244),
            Color::Black => (35, 33, 54),
            Color::Red => (235, 111, 146),
            Color::Green => (62, 143, 176),
            Color::Yellow => (246, 193, 119),
            Color::Blue => (156, 207, 216),
            Color::Magenta => (196, 167, 231),
            Color::Cyan => (234, 154, 151),
            Color::White => (224, 222, 244),
            Color::BrightBlack => (110, 106, 134),
            Color::BrightRed => (235, 111, 146),
            Color::BrightGreen => (62, 143, 176),
            Color::BrightYellow => (246, 193, 119),
            Color::BrightBlue => (156, 207, 216),
            Color::BrightMagenta => (196, 167, 231),
            Color::BrightCyan => (234, 154, 151),
            Color::BrightWhite => (224, 222, 244),
            Color::Rgb(r, g, b) => (*r, *g, *b),
        }
    }
}

/// The palette mapping [`Color::theme_rgb`] implements.
pub open spec fn theme_rgb_spec(color: Color) -> (u8, u8, u8) {
    match color {
        Color::Default => (224u8, 222u8, 244u8),
        Color::Black => (35u8, 33u8, 54u8),
        Color::Red => (235u8, 111u8, 146u8),
        Color::Green => (62u8, 143u8, 176u8),
        Color::Yellow => (246u8, 193u8, 119u8),
        Color::Blue => (156u8, 207u8, 216u8),
        Color::Magenta => (196u8, 167u8, 231u8),
        Color::Cyan => (234u8, 154u8, 151u8),
        Color::White => (224u8, 222u8, 244u8),
        Color::BrightBlack => (110u8, 106u8, 134u8),
        Color::BrightRed => (235u8, 111u8, 146u8),
        Color::BrightGreen => (62u8, 143u8, 176u8),
        Color::BrightYellow => (246u8, 193u8, 119u8),
        Color::BrightBlue => (156u8, 207u8, 216u8),
        Color::BrightMagenta => (196u8, 167u8, 231u8),
        Color::BrightCyan => (234u8, 154u8, 151u8),
        Color::BrightWhite => (224u8, 222u8, 244u8),
        Color::Rgb(r, g, b) => (r, g, b),
    }
}

impl Default for Color {
    fn default() -> (r: Self)
        ensures
            r == Color::Default,
    {
        Color::Default
    }
}

/// Text decoration applied alongside the colors.
#[derive(Clone, Copy, PartialEq, Eq, Structural, Debug)]
pub enum Style {
    Bold,
    Default,
    Inverted,
    Italic,
    Unstyled,
    Underline,
}

/// The escape sequence that undoes `style`.
pub open spec fn ansi_rest_spec(style: Style) -> Seq<char> {
    match style {
        Style::Bold => "\x1b[22m"@,
        Style::Inverted => "\x1b[27m"@,
        Style::Italic => "\x1b[33m"@,
        Style::Underline => "\x1b[24m"@,
        Style::Default | Style::Unstyled => "\x1b[0m"@,
    }
}

/// The escape sequence that applies `style`.
pub open spec fn ansi_style_spec(style: Style) -> Seq<char> {
    match style {
        Style::Bold => "\x1b[1m"@,
        Style::Inverted => "\x1b[7m"@,
        Style::Italic => "\x1b[3m"@,
        Style::Underline => "\x1b[4m"@,
        Style::Default | Style::Unstyled => "\x1b[0m"@,
    }
}

impl Style {
    /// The escape sequence that takes this style off again.
    pub fn ansi_rest(&self) -> (r: &'static str)
        ensures
            r@ == ansi_rest_spec(*self),
    {
        match self {
            Style::Bold => "\x1b[22m",
            Style::Inverted => "\x1b[27m",
            Style::Italic => "\x1b[33m",
            Style::Underline => "\x1b[24m",
            Style::Default | Style::Unstyled => "\x1b[0m",
        }
    }

    /// The escape sequence that applies this style.
    pub fn to_ansi(&self) -> (r: &'static str)
        ensures
            r@ == ansi_style_spec(*self),
    {
        match self {
            Style::Bold => "\x1b[1m",
            Style::Inverted => "\x1b[7m",
            Style::Italic => "\x1b[3m",
            Style::Underline => "\x1b[4m",
            Style::Default | Style::Unstyled => "\x1b[0m",
        }
    }
}

impl Default for Style {
    fn default() -> (r: Self)
        ensures
            r == Style::Unstyled,
    {
        Style::Unstyled
    }
}

/// A writer that tracks its current foreground, background and style, each
/// settable independently.
pub trait SetFormatting: Sized {
    /// The current foreground color.
    spec fn fg_color_spec(&self) -> Color;

    /// The current background color.
    spec fn bg_color_spec(&self) -> Color;

    /// The current style.
    spec fn style_spec(&self) -> Style;

    fn set_fg_color(&mut self, color: Color)
        ensures
            final(self).fg_color_spec() == color,
            final(self).bg_color_spec() == old(self).bg_color_spec(),
            final(self).style_spec() == old(self).style_spec(),
    ;

    fn get_fg_color(&self) -> (r: Color)
        ensures
            r == self.fg_color_spec(),
    ;

    fn set_bg_color(&mut self, color: Color)
        ensures
            final(self).bg_color_spec() == color,
            final(self).fg_color_spec() == old(self).fg_color_spec(),
            final(self).style_spec() == old(self).style_spec(),
    ;

    fn get_bg_color(&self) -> (r: Color)
        ensures
            r == self.bg_color_spec(),
    ;

    fn set_style(&mut self, style: Style)
        ensures
            final(self).style_spec() == style,
            final(self).fg_color_spec() == old(self).fg_color_spec(),
            final(self).bg_color_spec() == old(self).bg_color_spec(),
    ;

    fn get_style(&self) -> (r: Style)
        ensures
            r == self.style_spec(),
    ;

    fn set_colors(&mut self, fg_color: Color, bg_color: Color)
        ensures
            final(self).fg_color_spec() == fg_color,
            final(self).bg_color_spec() == bg_color,
            final(self).style_spec() == old(self).style_spec(),
    {
        self.set_fg_color(fg_color);
        self.set_bg_color(bg_color);
    }

    /// Applies a foreground color for a bounded scope: write through the
    /// guard, then [`WithFormatting::finish`] restores what was set before.
    fn with_fg_color(self, color: Color) -> (r: WithFormatting<Self>)
        ensures
            r.writer().fg_color_spec() == color,
            r.writer().bg_color_spec() == self.bg_color_spec(),
            r.writer().style_spec() == self.style_spec(),
            r.restores() == (Some(self.fg_color_spec()), None::<Color>, None::<Style>),
    {
        let mut writer = self;
        let prev_fg = writer.get_fg_color();
        writer.set_fg_color(color);
        WithFormatting { writer, prev_fg_color: Some(prev_fg), prev_bg_color: None, prev_style: None }
    }

    /// Applies a background color for a bounded scope.
    fn with_bg_color(self, color: Color) -> (r: WithFormatting<Self>)
        ensures
            r.writer().bg_color_spec() == color,
            r.writer().fg_color_spec() == self.fg_color_spec(),
            r.writer().style_spec() == self.style_spec(),
            r.restores() == (None::<Color>, Some(self.bg_color_spec()), None::<Style>),
    {
        let mut writer = self;
        let prev_bg = writer.get_bg_color();
        writer.set_bg_color(color);
        WithFormatting { writer, prev_fg_color: None, prev_bg_color: Some(prev_bg), prev_style: None }
    }

    /// Applies both colors for a bounded scope.
    fn with_colors(self, fg_color: Color, bg_color: Color) -> (r: WithFormatting<Self>)
        ensures
            r.writer().fg_color_spec() == fg_color,
            r.writer().bg_color_spec() == bg_color,
            r.writer().style_spec() == self.style_spec(),
            r.restores() == (
                Some(self.fg_color_spec()),
                Some(self.bg_color_spec()),
                None::<Style>,
            ),
    {
        let mut writer = self;
        let prev_fg = writer.get_fg_color();
        let prev_bg = writer.get_bg_color();
        writer.set_colors(fg_color, bg_color);
        WithFormatting {
            writer,
            prev_fg_color: Some(prev_fg),
            prev_bg_color: Some(prev_bg),
            prev_style: None,
        }
    }

    /// Applies bold for a bounded scope.
    fn with_bold(self) -> (r: WithFormatting<Self>)
        ensures
            r.writer().style_spec() == Style::Bold,
            r.writer().fg_color_spec() == self.fg_color_spec(),
            r.writer().bg_color_spec() == self.bg_color_spec(),
            r.restores() == (None::<Color>, None::<Color>, Some(self.style_spec())),
    {
        self.with_style(Style::Bold)
    }

    /// Applies underline for a bounded scope.
    fn with_underline(self) -> (r: WithFormatting<Self>)
        ensures
            r.writer().style_spec() == Style::Underline,
            r.writer().fg_color_spec() == self.fg_color_spec(),
            r.writer().bg_color_spec() == self.bg_color_spec(),
            r.restores() == (None::<Color>, None::<Color>, Some(self.style_spec())),
    {
        self.with_style(Style::Underline)
    }

    /// Applies inverted video for a bounded scope.
    fn with_inverted(self) -> (r: WithFormatting<Self>)
        ensures
            r.writer().style_spec() == Style::Inverted,
            r.writer().fg_color_spec() == self.fg_color_spec(),
            r.writer().bg_color_spec() == self.bg_color_spec(),
            r.restores() == (None::<Color>, None::<Color>, Some(self.style_spec())),
    {
        self.with_style(Style::Inverted)
    }

    /// Applies italics for a bounded scope.
    fn with_italic(self) -> (r: WithFormatting<Self>)
        ensures
            r.writer().style_spec() == Style::Italic,
            r.writer().fg_color_spec() == self.fg_color_spec(),
            r.writer().bg_color_spec() == self.bg_color_spec(),
            r.restores() == (None::<Color>, None::<Color>, Some(self.style_spec())),
    {
        self.with_style(Style::Italic)
    }

    /// Applies an arbitrary style for a bounded scope.
    fn with_style(self, style: Style) -> (r: WithFormatting<Self>)
        ensures
            r.writer().style_spec() == style,
            r.writer().fg_color_spec() == self.fg_color_spec(),
            r.writer().bg_color_spec() == self.bg_color_spec(),
            r.restores() == (None::<Color>, None::<Color>, Some(self.style_spec())),
    {
        let mut writer = self;
        let prev = writer.get_style();
        writer.set_style(style);
        WithFormatting { writer, prev_fg_color: None, prev_bg_color: None, prev_style: Some(prev) }
    }
}

/// A writer carrying temporary formatting, remembering what to restore.
/// Writing goes through to the wrapped writer; [`Self::finish`] puts the
/// remembered formatting back and returns the writer.
pub struct WithFormatting<W> {
    writer: W,
    prev_fg_color: Option<Color>,
    prev_bg_color: Option<Color>,
    prev_style: Option<Style>,
}

impl<W> WithFormatting<W> {
    /// The wrapped writer.
    pub closed spec fn writer(&self) -> W {
        self.writer
    }

    /// Which formatting pieces finishing restores.
    pub closed spec fn restores(&self) -> (Option<Color>, Option<Color>, Option<Style>) {
        (self.prev_fg_color, self.prev_bg_color, self.prev_style)
    }
}

impl<W: SetFormatting> WithFormatting<W> {
    /// Restores the remembered formatting and hands the writer back.
    pub fn finish(self) -> (r: W)
        ensures
            r.fg_color_spec() == match self.restores().0 {
                Some(c) => c,
                None => self.writer().fg_color_spec(),
            },
            r.bg_color_spec() == match self.restores().1 {
                Some(c) => c,
                None => self.writer().bg_color_spec(),
            },
            r.style_spec() == match self.restores().2 {
                Some(s) => s,
                None => self.writer().style_spec(),
            },
    {
        let mut writer = self.writer;
        if let Some(fg_color) = self.prev_fg_color {
            writer.set_fg_color(fg_color);
        }
        if let Some(bg_color) = self.prev_bg_color {
            writer.set_bg_color(bg_color);
        }
        if let Some(style) = self.prev_style {
            writer.set_style(style);
        }
        writer
    }
}

impl<W: SetFormatting + WriteExt> WithFormatting<W> {
    /// Writes through to the wrapped writer.
    pub fn write_str(&mut self, s: &str)
        ensures
            final(self).writer().text() == old(self).writer().text() + s@,
            final(self).restores() == old(self).restores(),
    {
        self.writer.write_str(s)
    }
}

} // verus!
