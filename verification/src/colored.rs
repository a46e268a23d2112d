//! Colourised renderings.

use vstd::prelude::*;
use crate::color_scheme::AnsiColorScheme;
use crate::debug_text::DebugText;
use crate::writer::{TextSink, WriteError};

verus! {

/// A value that has, beside its plain debug rendering, a colourised one for
/// every colour scheme.
///
/// Colour only adds to a rendering: with a blank scheme the colourised
/// rendering is the plain one.
pub trait DebugAnsiColored: DebugText {
    /// The rendering of the value with the styling sequences of `scheme`.
    spec fn colored_text(&self, scheme: AnsiColorScheme) -> Seq<char>;

    /// With a blank scheme the colourised rendering is the plain one.
    proof fn lemma_blank_is_plain(&self, scheme: AnsiColorScheme)
        requires
            scheme.is_blank(),
        ensures
            self.colored_text(scheme) == self.debug_text(),
    ;

    /// Writes the rendering of the value with the styling sequences of
    /// `color_scheme` to `w`.
    fn fmt_colored<W: TextSink>(&self, w: &mut W, color_scheme: &AnsiColorScheme) -> (r: Result<
        (),
        WriteError,
    >)
        ensures
            crate::writer::wrote(*old(w), *final(w), r, self.colored_text(*color_scheme)),
    ;
}

impl<T: DebugAnsiColored> DebugAnsiColored for &T {
    open spec fn colored_text(&self, scheme: AnsiColorScheme) -> Seq<char> {
        (**self).colored_text(scheme)
    }

    proof fn lemma_blank_is_plain(&self, scheme: AnsiColorScheme) {
        (**self).lemma_blank_is_plain(scheme);
    }

    fn fmt_colored<W: TextSink>(&self, w: &mut W, color_scheme: &AnsiColorScheme) -> (r: Result<
        (),
        WriteError,
    >) {
        (**self).fmt_colored(w, color_scheme)
    }
}

/// A value together with a colour scheme: its debug rendering is the
/// colourised rendering of the value with that scheme.
#[derive(Copy, Clone, Eq, PartialEq, Ord, PartialOrd, Hash)]
pub struct AnsiColored<T> {
    /// The value whose colourised rendering is meant.
    pub value: T,
    /// The scheme to render it with.
    pub color_scheme: AnsiColorScheme,
}

impl<T> AnsiColored<T> {
    /// Pairs `value` with `color_scheme`.
    pub fn new(value: T, color_scheme: AnsiColorScheme) -> (colored: Self)
        ensures
            colored.value == value,
            colored.color_scheme == color_scheme,
    {
        Self { value, color_scheme }
    }
}

impl<T: DebugAnsiColored> DebugText for AnsiColored<T> {
    open spec fn debug_text(&self) -> Seq<char> {
        self.value.colored_text(self.color_scheme)
    }

    fn fmt<W: TextSink>(&self, w: &mut W) -> (r: Result<(), WriteError>) {
        self.value.fmt_colored(w, &self.color_scheme)
    }
}

} // verus!
