//! A single argument of a context: an optional name and a value.

use vstd::prelude::*;
use crate::color_scheme::AnsiColorScheme;
use crate::colored::DebugAnsiColored;
use crate::colored_writer::ColoredWriter;
use crate::debug_text::DebugText;
use crate::writer::{write_piece, TextSink, WriteError};

verus! {

/// An argument: its value and, where it has one, its name.
#[derive(Clone, Eq, PartialEq, Ord, PartialOrd, Hash)]
pub struct UnwindContextArg<T> {
    /// The name of the argument, if it has one.
    pub name: Option<&'static str>,
    /// The value of the argument.
    pub value: T,
}

/// What stands in front of an argument's value: its name, a colon and a
/// space, or nothing for an argument without a name.
pub open spec fn name_prefix(name: Option<&'static str>) -> Seq<char> {
    match name {
        Some(n) => n@ + seq![':', ' '],
        None => Seq::<char>::empty(),
    }
}

impl<T> UnwindContextArg<T> {
    /// An argument with the given name and value. Nothing is rendered yet.
    pub fn new(name: Option<&'static str>, value: T) -> (arg: Self)
        ensures
            arg.name == name,
            arg.value == value,
    {
        Self { name, value }
    }
}

/// Writes the name of an argument, a colon and a space, or nothing where
/// there is no name; `tail` is what follows in the text being written.
pub(crate) fn fmt_name<W: TextSink>(
    name: Option<&'static str>,
    w: &mut W,
    Ghost(before): Ghost<W>,
    Ghost(head): Ghost<Seq<char>>,
    Ghost(tail): Ghost<Seq<char>>,
) -> (r: Result<(), WriteError>)
    requires
        crate::writer::progress(before, *old(w), head),
    ensures
        r is Ok ==> crate::writer::progress(before, *final(w), head + name_prefix(name)),
        r is Err ==> crate::writer::wrote(before, *final(w), r, head + name_prefix(name) + tail),
{
    match name {
        Some(n) => {
            proof {
                reveal_strlit(": ");
                assert(": "@ =~= seq![':', ' ']);
                assert(head + name_prefix(name) + tail =~= head + n@ + (seq![':', ' '] + tail));
                assert(head + name_prefix(name) =~= head + n@ + seq![':', ' ']);
            }
            write_piece(w, n, Ghost(before), Ghost(head), Ghost(seq![':', ' '] + tail))?;
            write_piece(w, ": ", Ghost(before), Ghost(head + n@), Ghost(tail))
        },
        None => {
            proof {
                assert(head + name_prefix(name) =~= head);
            }
            Ok(())
        },
    }
}

impl<T: DebugText> DebugText for UnwindContextArg<T> {
    /// The name, a colon and a space, then the value's rendering; the
    /// value's rendering alone where there is no name.
    open spec fn debug_text(&self) -> Seq<char> {
        name_prefix(self.name) + self.value.debug_text()
    }

    fn fmt<W: TextSink>(&self, w: &mut W) -> (r: Result<(), WriteError>) {
        let ghost before = *w;
        let ghost value = self.value.debug_text();
        let ghost prefix = name_prefix(self.name);
        proof {
            crate::writer::lemma_progress_start(before);
            assert(Seq::<char>::empty() + prefix =~= prefix);
        }
        fmt_name(self.name, w, Ghost(before), Ghost(Seq::empty()), Ghost(value))?;
        let ghost mid = *w;
        let r = self.value.fmt(w);
        proof {
            crate::writer::lemma_progress_step(
                before,
                mid,
                *w,
                r,
                prefix,
                value,
                Seq::<char>::empty(),
            );
            assert(prefix + value + Seq::<char>::empty() =~= prefix + value);
        }
        r
    }
}

impl<T: DebugText> DebugAnsiColored for UnwindContextArg<T> {
    /// The name as in the plain rendering, then the value's rendering
    /// colourised on its own and reset at its end.
    open spec fn colored_text(&self, scheme: AnsiColorScheme) -> Seq<char> {
        name_prefix(self.name) + crate::colored_writer::colorized(scheme, self.value.debug_text())
    }

    proof fn lemma_blank_is_plain(&self, scheme: AnsiColorScheme) {
        crate::colored_writer::lemma_colorized_blank(scheme, self.value.debug_text());
    }

    fn fmt_colored<W: TextSink>(&self, w: &mut W, color_scheme: &AnsiColorScheme) -> (r: Result<
        (),
        WriteError,
    >) {
        let ghost before = *w;
        let ghost scheme = *color_scheme;
        let ghost value = self.value.debug_text();
        let ghost prefix = name_prefix(self.name);
        let ghost body = crate::colored_writer::colorize_from(
            scheme,
            crate::colored_writer::ColoredWriterMode::Default,
            value,
            0,
        );
        let ghost end = crate::colored_writer::reset_text(
            scheme,
            crate::colored_writer::mode_after(
                crate::colored_writer::ColoredWriterMode::Default,
                value,
                0,
            ),
        );
        proof {
            crate::writer::lemma_progress_start(before);
            assert(Seq::<char>::empty() + prefix =~= prefix);
            assert(prefix + (body + end) =~= prefix + body + end);
        }
        fmt_name(self.name, w, Ghost(before), Ghost(Seq::empty()), Ghost(body + end))?;
        let mut text = String::new();
        let _ = self.value.fmt(&mut text);
        assert(text@ =~= value);
        let mut writer = ColoredWriter::new(*color_scheme);
        let ghost mid = *w;
        let r = writer.write_str(w, text.as_str());
        proof {
            crate::writer::lemma_progress_step(before, mid, *w, r, prefix, body, end);
        }
        if r.is_err() {
            return r;
        }
        let ghost mid = *w;
        let r = writer.reset(w);
        proof {
            crate::writer::lemma_progress_step(
                before,
                mid,
                *w,
                r,
                prefix + body,
                end,
                Seq::<char>::empty(),
            );
            assert(prefix + body + end + Seq::<char>::empty() =~= prefix + body + end);
        }
        r
    }
}

} // verus!
