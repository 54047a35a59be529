//! Formatting helpers: a text-writer trait, an indenting adapter, wrappers
//! that tag a value with the notation it should be rendered in, and a
//! fallback for optional values.

use vstd::prelude::*;

verus! {

/// A sink for text, with its accumulated output as the model.
pub trait WriteExt: Sized {
    /// Everything written so far.
    spec fn text(&self) -> Seq<char>;

    /// Appends `s` to the output.
    fn write_str(&mut self, s: &str)
        ensures
            final(self).text() == old(self).text() + s@,
    ;

    /// Wraps the writer so that every new line written through it is
    /// indented by `indent` spaces.
    fn with_indent(self, indent: usize) -> (r: WithIndent<Self>)
        ensures
            r.writer() == self,
            r.indent_spec() == indent,
    {
        WithIndent { writer: self, indent }
    }
}

/// `indent` spaces.
pub open spec fn indent_spaces(indent: int) -> Seq<char> {
    Seq::new(if indent >= 0 {
        indent as nat
    } else {
        0
    }, |i: int| ' ')
}

/// `s` with `indent` spaces inserted after every newline.
pub open spec fn indented(s: Seq<char>, indent: int) -> Seq<char>
    decreases s.len(),
{
    if s.len() == 0 {
        Seq::empty()
    } else {
        indented(s.drop_last(), indent) + (if s.last() == '\n' {
            seq!['\n'] + indent_spaces(indent)
        } else {
            seq![s.last()]
        })
    }
}

/// A writer that indents every new line written to it by a fixed number of
/// spaces.
pub struct WithIndent<W> {
    writer: W,
    indent: usize,
}

impl<W> WithIndent<W> {
    /// The wrapped writer.
    pub closed spec fn writer(&self) -> W {
        self.writer
    }

    /// How many spaces each new line gets.
    pub closed spec fn indent_spec(&self) -> int {
        self.indent as int
    }
}

impl<W: WriteExt> WithIndent<W> {
    /// Appends `s`, following each newline with the indent.
    pub fn write_str(&mut self, s: &str)
        requires
            vstd::string::is_ascii(s),
        ensures
            final(self).writer().text() == old(self).writer().text() + indented(
                s@,
                old(self).indent_spec(),
            ),
            final(self).indent_spec() == old(self).indent_spec(),
    {
        proof {
            reveal_strlit("\n");
            reveal_strlit(" ");
        }
        let n = s.unicode_len();
        let mut i: usize = 0;
        while i < n
            invariant
                n == s@.len(),
                vstd::string::is_ascii(s),
                i <= n,
                self.indent == old(self).indent_spec(),
                self.writer.text() == old(self).writer().text() + indented(
                    s@.take(i as int),
                    self.indent as int,
                ),
            decreases n - i,
        {
            proof {
                reveal_strlit("\n");
                reveal_strlit(" ");
            }
            let c = s.get_char(i);
            if c == '\n' {
                self.writer.write_str("\n");
                let mut j: usize = 0;
                while j < self.indent
                    invariant
                        j <= self.indent,
                        self.writer.text() == old(self).writer().text() + indented(
                            s@.take(i as int),
                            self.indent as int,
                        ) + seq!['\n'] + indent_spaces(j as int),
                        self.indent == old(self).indent_spec(),
                    decreases self.indent - j,
                {
                    self.writer.write_str(" ");
                    proof {
                        reveal_strlit(" ");
                        assert(indent_spaces(j as int) + " "@ =~= indent_spaces(j + 1));
                        assert(self.writer.text() =~= old(self).writer().text() + indented(
                            s@.take(i as int),
                            self.indent as int,
                        ) + seq!['\n'] + indent_spaces(j + 1));
                    }
                    j = j + 1;
                }
                proof {
                    assert(s@.take(i + 1).drop_last() =~= s@.take(i as int));
                    assert(s@.take(i + 1).last() == '\n');
                    assert(self.writer.text() =~= old(self).writer().text() + indented(
                        s@.take(i + 1),
                        self.indent as int,
                    ));
                }
            } else {
                let chunk = s.substring_ascii(i, i + 1);
                self.writer.write_str(chunk);
                proof {
                    assert(chunk@ =~= seq![s@[i as int]]);
                    assert(s@.take(i + 1).drop_last() =~= s@.take(i as int));
                    assert(s@.take(i + 1).last() == s@[i as int]);
                    assert(self.writer.text() =~= old(self).writer().text() + indented(
                        s@.take(i + 1),
                        self.indent as int,
                    ));
                }
            }
            i = i + 1;
        }
        proof {
            assert(s@.take(n as int) =~= s@);
        }
    }

    /// Hands the wrapped writer back.
    pub fn finish(self) -> (r: W)
        ensures
            r == self.writer(),
    {
        self.writer
    }
}

/// The notation a wrapped value asks to be rendered in.
#[derive(Clone, Copy, PartialEq, Eq, Structural, Debug)]
pub enum FormatKind {
    /// As a pointer-style address.
    Pointer,
    /// As lower-case hexadecimal with a leading radix mark.
    LowerHex,
    /// As binary with a leading radix mark.
    Binary,
    /// As the alternate, multi-line debug rendering.
    DebugAlt,
}

/// A value tagged with the notation its eventual renderer should use.
pub struct FormatWith<T> {
    pub value: T,
    pub kind: FormatKind,
}

/// Tags a value for pointer-style rendering.
pub fn ptr<T>(value: T) -> (r: FormatWith<T>)
    ensures
        r.value == value,
        r.kind == FormatKind::Pointer,
{
    FormatWith { value, kind: FormatKind::Pointer }
}

/// Tags a value for lower-case hexadecimal rendering.
pub fn hex<T>(value: T) -> (r: FormatWith<T>)
    ensures
        r.value == value,
        r.kind == FormatKind::LowerHex,
{
    FormatWith { value, kind: FormatKind::LowerHex }
}

/// Tags a value for binary rendering.
pub fn bin<T>(value: T) -> (r: FormatWith<T>)
    ensures
        r.value == value,
        r.kind == FormatKind::Binary,
{
    FormatWith { value, kind: FormatKind::Binary }
}

/// Tags a value for the alternate debug rendering.
pub fn alt<T>(value: T) -> (r: FormatWith<T>)
    ensures
        r.value == value,
        r.kind == FormatKind::DebugAlt,
{
    FormatWith { value, kind: FormatKind::DebugAlt }
}

/// An optional value with the text shown when it is absent.
pub struct FmtOption<'a, T> {
    opt: Option<&'a T>,
    or_else: &'a str,
}

impl<'a, T> FmtOption<'a, T> {
    /// The wrapped value, if present.
    pub closed spec fn opt_spec(&self) -> Option<&'a T> {
        self.opt
    }

    /// The fallback text.
    pub closed spec fn or_else_spec(&self) -> Seq<char> {
        self.or_else@
    }

    /// Wraps the provided optional value, with an empty fallback.
    pub fn new(opt: &'a Option<T>) -> (r: Self)
        ensures
            r.opt_spec() is Some <==> *opt is Some,
            (*opt) matches Some(v) ==> r.opt_spec() matches Some(rv) && *rv == v,
            r.or_else_spec() == ""@,
    {
        FmtOption { opt: opt.as_ref(), or_else: "" }
    }

    /// The same value with the fallback text replaced.
    pub fn or_else(self, or_else: &'a str) -> (r: Self)
        ensures
            r.opt_spec() == self.opt_spec(),
            r.or_else_spec() == or_else@,
    {
        FmtOption { or_else, ..self }
    }
}

/// Wraps an optional value for rendering; shorthand for
/// [`FmtOption::new`].
pub fn opt<'a, T>(value: &'a Option<T>) -> (r: FmtOption<'a, T>)
    ensures
        r.opt_spec() is Some <==> *value is Some,
        (*value) matches Some(v) ==> r.opt_spec() matches Some(rv) && *rv == v,
        r.or_else_spec() == ""@,
{
    FmtOption::new(value)
}

/// `values` joined by a comma and a space.
pub open spec fn comma_join(values: Seq<Seq<char>>) -> Seq<char>
    decreases values.len(),
{
    if values.len() == 0 {
        Seq::empty()
    } else if values.len() == 1 {
        values[0]
    } else {
        comma_join(values.drop_last()) + ", "@ + values.last()
    }
}

/// Writes `values` separated by a comma and a space, nothing before the
/// first or after the last.
pub fn comma_delimited<W: WriteExt>(writer: W, values: &Vec<String>) -> (r: W)
    ensures
        r.text() == writer.text() + comma_join(values.deep_view()),
{
    let mut w = writer;
    let n = values.len();
    let mut i: usize = 0;
    proof {
        assert(values.deep_view().len() == n);
    }
    while i < n
        invariant
            n == values@.len(),
            values.deep_view().len() == n,
            i <= n,
            w.text() == writer.text() + comma_join(values.deep_view().take(i as int)),
            forall|j: int| 0 <= j < n ==> values.deep_view()[j] == values@[j]@,
        decreases n - i,
    {
        if i > 0 {
            w.write_str(", ");
        }
        w.write_str(values[i].as_str());
        proof {
            let dv = values.deep_view();
            assert(dv.take(i + 1).drop_last() =~= dv.take(i as int));
            assert(dv.take(i + 1).last() == values@[i as int]@);
            if i == 0 {
                assert(w.text() =~= writer.text() + comma_join(dv.take(i + 1)));
            } else {
                assert(w.text() =~= writer.text() + comma_join(dv.take(i + 1)));
            }
        }
        i = i + 1;
    }
    proof {
        assert(values.deep_view().take(n as int) =~= values.deep_view());
    }
    w
}

} // verus!
