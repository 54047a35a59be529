//! A formatting layer over one log output: the output, its configured
//! line length, and the indentation depth tracked as spans are entered and
//! left.

use vstd::prelude::*;

use crate::log::writer::LogOutput;

verus! {

/// How wide a record may run, and how deep the current span nesting is.
pub struct OutputConfig {
    line_length: usize,
    indent: u64,
}

/// A log output paired with its configuration.
pub struct Output<W> {
    writer: W,
    config: OutputConfig,
}

impl<W> Output<W> {
    /// The wrapped output.
    pub closed spec fn writer_spec(&self) -> W {
        self.writer
    }

    /// The configured usable line length.
    pub closed spec fn line_length_spec(&self) -> int {
        self.config.line_length as int
    }

    /// The current span nesting depth.
    pub closed spec fn indent_spec(&self) -> u64 {
        self.config.indent
    }
}

impl<W: LogOutput> Output<W> {
    /// Pairs an output with its configuration: the usable line keeps a
    /// margin of nine columns for the timestamp block.
    pub fn new(writer: W) -> (r: Self)
        ensures
            r.writer_spec() == writer,
            r.indent_spec() == 0,
    {
        let line = writer.line_len();
        let line_length = if line >= 9 {
            line - 9
        } else {
            0
        };
        Output { writer, config: OutputConfig { line_length, indent: 0 } }
    }

    /// A span was entered: one more level of indentation.
    pub fn enter(&mut self)
        requires
            old(self).indent_spec() < u64::MAX,
        ensures
            final(self).indent_spec() == old(self).indent_spec() + 1,
            final(self).writer_spec() == old(self).writer_spec(),
            final(self).line_length_spec() == old(self).line_length_spec(),
    {
        self.config.indent = self.config.indent + 1;
    }

    /// A span was left: one level less, saturating at the top level.
    pub fn exit(&mut self)
        ensures
            final(self).indent_spec() == if old(self).indent_spec() > 0 {
                old(self).indent_spec() - 1
            } else {
                0
            },
            final(self).writer_spec() == old(self).writer_spec(),
            final(self).line_length_spec() == old(self).line_length_spec(),
    {
        if self.config.indent > 0 {
            self.config.indent = self.config.indent - 1;
        }
    }

    /// Whether the wrapped output accepts records.
    pub fn enabled(&self) -> (r: bool)
        ensures
            r == self.writer_spec().enabled_spec(),
    {
        self.writer.enabled()
    }
}

/// A formatting layer writing records to one output.
pub struct Layer<W> {
    writer: Output<W>,
}

impl<W: LogOutput> Layer<W> {
    /// The layer's output.
    pub closed spec fn output_spec(&self) -> Output<W> {
        self.writer
    }

    /// A layer over the output type's default instance.
    pub fn new() -> (r: Self) where W: Default
        ensures
            r.output_spec().indent_spec() == 0,
    {
        Layer { writer: Output::new(W::default()) }
    }

    /// A layer over the given writer.
    pub fn from_writer(writer: W) -> (r: Self)
        ensures
            r.output_spec().writer_spec() == writer,
            r.output_spec().indent_spec() == 0,
    {
        Layer { writer: Output::new(writer) }
    }

    /// Whether the layer's output accepts records.
    pub fn enabled(&self) -> (r: bool)
        ensures
            r == self.output_spec().writer_spec().enabled_spec(),
    {
        self.writer.enabled()
    }

    /// A span was entered under this layer.
    pub fn on_enter(&mut self)
        requires
            old(self).output_spec().indent_spec() < u64::MAX,
        ensures
            final(self).output_spec().indent_spec() == old(self).output_spec().indent_spec() + 1,
    {
        self.writer.enter()
    }

    /// A span was left under this layer.
    pub fn on_exit(&mut self)
        ensures
            final(self).output_spec().indent_spec() == if old(self).output_spec().indent_spec()
                > 0 {
                old(self).output_spec().indent_spec() - 1
            } else {
                0
            },
    {
        self.writer.exit()
    }
}

} // verus!
