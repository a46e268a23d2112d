//! The scope guard over a writer.

use vstd::prelude::*;
use crate::color_scheme::AnsiColorScheme;
use crate::colored::DebugAnsiColored;
use crate::location::{print_context, SourceLocation};
use crate::panic_detector::PanicDetector;
use crate::set_colors::{resolve_color_scheme, ColorSettings};
use crate::writer::TextSink;

verus! {

/// A scope guard: it holds the context of a scope, and when the scope is
/// left while the thread is unwinding it prints that context to its
/// writer.
///
/// Creating a guard renders nothing. The guard prints in the colours of its
/// own scheme if it has one; else in those of the settings that are found
/// when it prints, if colours are switched on there; else without colours.
#[derive(Clone, Eq, PartialEq, Ord, PartialOrd, Hash, Debug)]
pub struct UnwindContextWithFmt<W: TextSink, T: DebugAnsiColored, P: PanicDetector> {
    data: T,
    writer: W,
    panic_detector: P,
    color_scheme: Option<AnsiColorScheme>,
    location: SourceLocation,
}

impl<W: TextSink, T: DebugAnsiColored, P: PanicDetector> UnwindContextWithFmt<W, T, P> {
    /// The context that the guard holds.
    pub closed spec fn data(&self) -> T {
        self.data
    }

    /// The writer that the guard prints to.
    pub closed spec fn writer(&self) -> W {
        self.writer
    }

    /// The detector that the guard asks when its scope is left.
    pub closed spec fn panic_detector(&self) -> P {
        self.panic_detector
    }

    /// The colour scheme of the guard's own, if it has one.
    pub closed spec fn color_scheme(&self) -> Option<AnsiColorScheme> {
        self.color_scheme
    }

    /// The place where the guard was created.
    pub closed spec fn location(&self) -> SourceLocation {
        self.location
    }

    /// The text that the guard prints when `settings` are found.
    pub open spec fn message(&self, settings: ColorSettings) -> Seq<char> {
        crate::location::message(
            self.data(),
            crate::set_colors::resolved_color_scheme(self.color_scheme(), settings),
            self.location(),
        )
    }

    /// A guard over the context `data`, created at `location`, that prints
    /// to `writer`, with the colour scheme `color_scheme` of its own if it
    /// is given one.
    #[must_use]
    pub fn new(
        data: T,
        writer: W,
        panic_detector: P,
        color_scheme: Option<AnsiColorScheme>,
        location: SourceLocation,
    ) -> (guard: Self)
        ensures
            guard.data() == data,
            guard.writer() == writer,
            guard.panic_detector() == panic_detector,
            guard.color_scheme() == color_scheme,
            guard.location() == location,
    {
        Self { data, writer, panic_detector, color_scheme, location }
    }

    /// Prints the context to the writer now, whether or not the thread is
    /// unwinding. The colours are the guard's own scheme, else those of
    /// `settings`. The guard stays as it was: a later print or exit prints
    /// again. A failure of the writer is swallowed.
    pub fn print(&mut self, settings: &ColorSettings)
        ensures
            final(self).data() == old(self).data(),
            final(self).panic_detector() == old(self).panic_detector(),
            final(self).color_scheme() == old(self).color_scheme(),
            final(self).location() == old(self).location(),
            crate::location::printed(
                old(self).writer(),
                final(self).writer(),
                old(self).message(*settings),
            ),
    {
        let scheme = resolve_color_scheme(self.color_scheme, settings);
        print_context(&self.data, &self.location, &scheme, &mut self.writer);
    }

    /// Leaves the scope, given whether the thread is unwinding: prints the
    /// context once if it is, and writes nothing if it is not.
    pub fn leave(&mut self, unwinding: bool, settings: &ColorSettings)
        ensures
            final(self).data() == old(self).data(),
            final(self).panic_detector() == old(self).panic_detector(),
            final(self).color_scheme() == old(self).color_scheme(),
            final(self).location() == old(self).location(),
            unwinding ==> crate::location::printed(
                old(self).writer(),
                final(self).writer(),
                old(self).message(*settings),
            ),
            !unwinding ==> final(self).writer() == old(self).writer(),
    {
        if unwinding {
            self.print(settings);
        }
    }

    /// Leaves the scope as `leave` does, and hands the writer back.
    pub fn exit_with(self, unwinding: bool, settings: &ColorSettings) -> (writer: W)
        ensures
            unwinding ==> crate::location::printed(
                self.writer(),
                writer,
                self.message(*settings),
            ),
            !unwinding ==> writer == self.writer(),
    {
        let mut guard = self;
        guard.leave(unwinding, settings);
        guard.writer
    }

    /// Leaves the scope: asks the detector whether the thread is unwinding,
    /// leaves as `leave` does for its answer, and hands the writer back.
    pub fn exit(self, settings: &ColorSettings) -> (writer: W)
        ensures
            exists|unwinding: bool| #[trigger]
                call_ensures(
                    <P as PanicDetector>::is_panicking,
                    (&self.panic_detector(),),
                    unwinding,
                ) && (unwinding ==> crate::location::printed(
                    self.writer(),
                    writer,
                    self.message(*settings),
                )) && (!unwinding ==> writer == self.writer()),
    {
        let unwinding = self.panic_detector.is_panicking();
        assert(call_ensures(
            <P as PanicDetector>::is_panicking,
            (&self.panic_detector(),),
            unwinding,
        ));
        self.exit_with(unwinding, settings)
    }

    /// The writer, with what has been printed to it so far.
    pub fn writer_ref(&self) -> (writer: &W)
        ensures
            *writer == self.writer(),
    {
        &self.writer
    }
}

} // verus!
