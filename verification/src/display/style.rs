//! Styled writers: one style active at a time, with guards that reset it
//! when a scope of styled output finishes.

use vstd::prelude::*;

use crate::display::fmt::WriteExt;

verus! {

/// Text decoration, one applied at a time.
#[derive(Clone, Copy, PartialEq, Eq, Structural, Debug)]
pub enum Style {
    Default,
    Unstyled,
    Bold,
    Underline,
    Inverted,
}

/// A writer with a settable style.
pub trait SetStyle: Sized {
    /// The current style.
    spec fn style_spec(&self) -> Style;

    fn set_style(&mut self, style: Style)
        ensures
            final(self).style_spec() == style,
    ;

    fn get_style(&self) -> (r: Style)
        ensures
            r == self.style_spec(),
    ;

    /// Writes bold for a bounded scope; the guard's finish resets the
    /// style.
    fn with_bold(self) -> (r: WithBold<Self>)
        ensures
            r.writer().style_spec() == Style::Bold,
    {
        let mut writer = self;
        writer.set_style(Style::Bold);
        WithBold { writer }
    }

    /// Writes underlined for a bounded scope.
    fn with_underline(self) -> (r: WithUnderline<Self>)
        ensures
            r.writer().style_spec() == Style::Underline,
    {
        let mut writer = self;
        writer.set_style(Style::Underline);
        WithUnderline { writer }
    }

    /// Writes inverted for a bounded scope.
    fn with_inverted(self) -> (r: WithInverted<Self>)
        ensures
            r.writer().style_spec() == Style::Inverted,
    {
        let mut writer = self;
        writer.set_style(Style::Inverted);
        WithInverted { writer }
    }
}

/// A writer set bold until finished.
pub struct WithBold<W> {
    writer: W,
}

impl<W> WithBold<W> {
    pub closed spec fn writer(&self) -> W {
        self.writer
    }
}

impl<W: SetStyle> WithBold<W> {
    /// Resets the style and hands the writer back.
    pub fn finish(self) -> (r: W)
        ensures
            r.style_spec() == Style::Unstyled,
    {
        let mut writer = self.writer;
        writer.set_style(Style::Unstyled);
        writer
    }
}

impl<W: SetStyle + WriteExt> WithBold<W> {
    pub fn write_str(&mut self, s: &str)
        ensures
            final(self).writer().text() == old(self).writer().text() + s@,
    {
        self.writer.write_str(s)
    }
}

/// A writer set underlined until finished.
pub struct WithUnderline<W> {
    writer: W,
}

impl<W> WithUnderline<W> {
    pub closed spec fn writer(&self) -> W {
        self.writer
    }
}

impl<W: SetStyle> WithUnderline<W> {
    /// Resets the style and hands the writer back.
    pub fn finish(self) -> (r: W)
        ensures
            r.style_spec() == Style::Unstyled,
    {
        let mut writer = self.writer;
        writer.set_style(Style::Unstyled);
        writer
    }
}

impl<W: SetStyle + WriteExt> WithUnderline<W> {
    pub fn write_str(&mut self, s: &str)
        ensures
            final(self).writer().text() == old(self).writer().text() + s@,
    {
        self.writer.write_str(s)
    }
}

/// A writer set inverted until finished.
pub struct WithInverted<W> {
    writer: W,
}

impl<W> WithInverted<W> {
    pub closed spec fn writer(&self) -> W {
        self.writer
    }
}

impl<W: SetStyle> WithInverted<W> {
    /// Resets the style and hands the writer back.
    pub fn finish(self) -> (r: W)
        ensures
            r.style_spec() == Style::Unstyled,
    {
        let mut writer = self.writer;
        writer.set_style(Style::Unstyled);
        writer
    }
}

impl<W: SetStyle + WriteExt> WithInverted<W> {
    pub fn write_str(&mut self, s: &str)
        ensures
            final(self).writer().text() == old(self).writer().text() + s@,
    {
        self.writer.write_str(s)
    }
}

} // verus!
