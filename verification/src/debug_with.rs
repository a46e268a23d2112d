//! Wrappers that choose which rendering of a value stands in a context:
//! its display rendering, or its pretty debug rendering.

use vstd::prelude::*;
use crate::debug_text::{fmt_bool, fmt_decimal, fmt_int, DebugText};
use crate::writer::{TextSink, WriteError};

verus! {

/// A value with a display rendering: the text that shows the value to a
/// reader, without quotes or escapes.
pub trait DisplayText {
    /// The display rendering of the value.
    spec fn display_text(&self) -> Seq<char>;

    /// Writes the display rendering of the value to `w`.
    fn fmt_display<W: TextSink>(&self, w: &mut W) -> (r: Result<(), WriteError>)
        ensures
            crate::writer::wrote(*old(w), *final(w), r, self.display_text()),
    ;
}

/// A value with a pretty debug rendering: its debug rendering laid out
/// over several lines where the value has parts.
pub trait PrettyDebugText {
    /// The pretty debug rendering of the value.
    spec fn pretty_debug_text(&self) -> Seq<char>;

    /// Writes the pretty debug rendering of the value to `w`.
    fn fmt_pretty<W: TextSink>(&self, w: &mut W) -> (r: Result<(), WriteError>)
        ensures
            crate::writer::wrote(*old(w), *final(w), r, self.pretty_debug_text()),
    ;
}

/// A value that renders, wherever a rendering of it is asked for, as its
/// display rendering.
#[derive(Copy, Clone, Eq, PartialEq, Ord, PartialOrd, Hash, Default)]
pub struct WithDisplay<T>(
    /// The value that is shown by its display rendering.
    pub T,
);

/// A value that renders, wherever a rendering of it is asked for, as its
/// pretty debug rendering.
#[derive(Copy, Clone, Eq, PartialEq, Ord, PartialOrd, Hash, Default)]
pub struct WithPrettyDebug<T>(
    /// The value that is shown by its pretty debug rendering.
    pub T,
);

impl<T: DisplayText> DisplayText for WithDisplay<T> {
    open spec fn display_text(&self) -> Seq<char> {
        self.0.display_text()
    }

    fn fmt_display<W: TextSink>(&self, w: &mut W) -> (r: Result<(), WriteError>) {
        self.0.fmt_display(w)
    }
}

impl<T: DisplayText> DebugText for WithDisplay<T> {
    open spec fn debug_text(&self) -> Seq<char> {
        self.0.display_text()
    }

    fn fmt<W: TextSink>(&self, w: &mut W) -> (r: Result<(), WriteError>) {
        self.0.fmt_display(w)
    }
}

impl<T: DisplayText> PrettyDebugText for WithDisplay<T> {
    open spec fn pretty_debug_text(&self) -> Seq<char> {
        self.0.display_text()
    }

    fn fmt_pretty<W: TextSink>(&self, w: &mut W) -> (r: Result<(), WriteError>) {
        self.0.fmt_display(w)
    }
}

impl<T: PrettyDebugText> DisplayText for WithPrettyDebug<T> {
    open spec fn display_text(&self) -> Seq<char> {
        self.0.pretty_debug_text()
    }

    fn fmt_display<W: TextSink>(&self, w: &mut W) -> (r: Result<(), WriteError>) {
        self.0.fmt_pretty(w)
    }
}

impl<T: PrettyDebugText> DebugText for WithPrettyDebug<T> {
    open spec fn debug_text(&self) -> Seq<char> {
        self.0.pretty_debug_text()
    }

    fn fmt<W: TextSink>(&self, w: &mut W) -> (r: Result<(), WriteError>) {
        self.0.fmt_pretty(w)
    }
}

impl<T: PrettyDebugText> PrettyDebugText for WithPrettyDebug<T> {
    open spec fn pretty_debug_text(&self) -> Seq<char> {
        self.0.pretty_debug_text()
    }

    fn fmt_pretty<W: TextSink>(&self, w: &mut W) -> (r: Result<(), WriteError>) {
        self.0.fmt_pretty(w)
    }
}

impl<T: DisplayText> DisplayText for &T {
    open spec fn display_text(&self) -> Seq<char> {
        (**self).display_text()
    }

    fn fmt_display<W: TextSink>(&self, w: &mut W) -> (r: Result<(), WriteError>) {
        (**self).fmt_display(w)
    }
}

impl<T: PrettyDebugText> PrettyDebugText for &T {
    open spec fn pretty_debug_text(&self) -> Seq<char> {
        (**self).pretty_debug_text()
    }

    fn fmt_pretty<W: TextSink>(&self, w: &mut W) -> (r: Result<(), WriteError>) {
        (**self).fmt_pretty(w)
    }
}

impl DisplayText for &str {
    /// A string slice shows as its text.
    open spec fn display_text(&self) -> Seq<char> {
        (*self)@
    }

    fn fmt_display<W: TextSink>(&self, w: &mut W) -> (r: Result<(), WriteError>) {
        w.write_str(*self)
    }
}

impl DisplayText for String {
    /// A string shows as its text.
    open spec fn display_text(&self) -> Seq<char> {
        self@
    }

    fn fmt_display<W: TextSink>(&self, w: &mut W) -> (r: Result<(), WriteError>) {
        w.write_str(self.as_str())
    }
}

impl DisplayText for char {
    /// A character shows as itself.
    open spec fn display_text(&self) -> Seq<char> {
        seq![*self]
    }

    fn fmt_display<W: TextSink>(&self, w: &mut W) -> (r: Result<(), WriteError>) {
        w.write_char(*self)
    }
}

impl DisplayText for bool {
    open spec fn display_text(&self) -> Seq<char> {
        crate::debug_text::bool_text(*self)
    }

    fn fmt_display<W: TextSink>(&self, w: &mut W) -> (r: Result<(), WriteError>) {
        fmt_bool(*self, w)
    }
}

impl PrettyDebugText for &str {
    /// A value without parts has one debug rendering.
    open spec fn pretty_debug_text(&self) -> Seq<char> {
        self.debug_text()
    }

    fn fmt_pretty<W: TextSink>(&self, w: &mut W) -> (r: Result<(), WriteError>) {
        self.fmt(w)
    }
}

impl PrettyDebugText for String {
    /// A value without parts has one debug rendering.
    open spec fn pretty_debug_text(&self) -> Seq<char> {
        self.debug_text()
    }

    fn fmt_pretty<W: TextSink>(&self, w: &mut W) -> (r: Result<(), WriteError>) {
        self.fmt(w)
    }
}

impl PrettyDebugText for char {
    /// A value without parts has one debug rendering.
    open spec fn pretty_debug_text(&self) -> Seq<char> {
        self.debug_text()
    }

    fn fmt_pretty<W: TextSink>(&self, w: &mut W) -> (r: Result<(), WriteError>) {
        self.fmt(w)
    }
}

impl PrettyDebugText for bool {
    /// A value without parts has one debug rendering.
    open spec fn pretty_debug_text(&self) -> Seq<char> {
        self.debug_text()
    }

    fn fmt_pretty<W: TextSink>(&self, w: &mut W) -> (r: Result<(), WriteError>) {
        self.fmt(w)
    }
}

impl DisplayText for u8 {
    /// An integer shows as its decimal text.
    open spec fn display_text(&self) -> Seq<char> {
        crate::debug_text::decimal(*self as nat)
    }

    fn fmt_display<W: TextSink>(&self, w: &mut W) -> (r: Result<(), WriteError>) {
        fmt_decimal(*self as u128, w)
    }
}

impl PrettyDebugText for u8 {
    /// A value without parts has one debug rendering.
    open spec fn pretty_debug_text(&self) -> Seq<char> {
        crate::debug_text::decimal(*self as nat)
    }

    fn fmt_pretty<W: TextSink>(&self, w: &mut W) -> (r: Result<(), WriteError>) {
        fmt_decimal(*self as u128, w)
    }
}

impl DisplayText for u16 {
    /// An integer shows as its decimal text.
    open spec fn display_text(&self) -> Seq<char> {
        crate::debug_text::decimal(*self as nat)
    }

    fn fmt_display<W: TextSink>(&self, w: &mut W) -> (r: Result<(), WriteError>) {
        fmt_decimal(*self as u128, w)
    }
}

impl PrettyDebugText for u16 {
    /// A value without parts has one debug rendering.
    open spec fn pretty_debug_text(&self) -> Seq<char> {
        crate::debug_text::decimal(*self as nat)
    }

    fn fmt_pretty<W: TextSink>(&self, w: &mut W) -> (r: Result<(), WriteError>) {
        fmt_decimal(*self as u128, w)
    }
}

impl DisplayText for u32 {
    /// An integer shows as its decimal text.
    open spec fn display_text(&self) -> Seq<char> {
        crate::debug_text::decimal(*self as nat)
    }

    fn fmt_display<W: TextSink>(&self, w: &mut W) -> (r: Result<(), WriteError>) {
        fmt_decimal(*self as u128, w)
    }
}

impl PrettyDebugText for u32 {
    /// A value without parts has one debug rendering.
    open spec fn pretty_debug_text(&self) -> Seq<char> {
        crate::debug_text::decimal(*self as nat)
    }

    fn fmt_pretty<W: TextSink>(&self, w: &mut W) -> (r: Result<(), WriteError>) {
        fmt_decimal(*self as u128, w)
    }
}

impl DisplayText for u64 {
    /// An integer shows as its decimal text.
    open spec fn display_text(&self) -> Seq<char> {
        crate::debug_text::decimal(*self as nat)
    }

    fn fmt_display<W: TextSink>(&self, w: &mut W) -> (r: Result<(), WriteError>) {
        fmt_decimal(*self as u128, w)
    }
}

impl PrettyDebugText for u64 {
    /// A value without parts has one debug rendering.
    open spec fn pretty_debug_text(&self) -> Seq<char> {
        crate::debug_text::decimal(*self as nat)
    }

    fn fmt_pretty<W: TextSink>(&self, w: &mut W) -> (r: Result<(), WriteError>) {
        fmt_decimal(*self as u128, w)
    }
}

impl DisplayText for u128 {
    /// An integer shows as its decimal text.
    open spec fn display_text(&self) -> Seq<char> {
        crate::debug_text::decimal(*self as nat)
    }

    fn fmt_display<W: TextSink>(&self, w: &mut W) -> (r: Result<(), WriteError>) {
        fmt_decimal(*self, w)
    }
}

impl PrettyDebugText for u128 {
    /// A value without parts has one debug rendering.
    open spec fn pretty_debug_text(&self) -> Seq<char> {
        crate::debug_text::decimal(*self as nat)
    }

    fn fmt_pretty<W: TextSink>(&self, w: &mut W) -> (r: Result<(), WriteError>) {
        fmt_decimal(*self, w)
    }
}

impl DisplayText for usize {
    /// An integer shows as its decimal text.
    open spec fn display_text(&self) -> Seq<char> {
        crate::debug_text::decimal(*self as nat)
    }

    fn fmt_display<W: TextSink>(&self, w: &mut W) -> (r: Result<(), WriteError>) {
        fmt_decimal(*self as u128, w)
    }
}

impl PrettyDebugText for usize {
    /// A value without parts has one debug rendering.
    open spec fn pretty_debug_text(&self) -> Seq<char> {
        crate::debug_text::decimal(*self as nat)
    }

    fn fmt_pretty<W: TextSink>(&self, w: &mut W) -> (r: Result<(), WriteError>) {
        fmt_decimal(*self as u128, w)
    }
}

impl DisplayText for i8 {
    /// An integer shows as its decimal text.
    open spec fn display_text(&self) -> Seq<char> {
        crate::debug_text::int_text(*self as int)
    }

    fn fmt_display<W: TextSink>(&self, w: &mut W) -> (r: Result<(), WriteError>) {
        fmt_int(*self as i128, w)
    }
}

impl PrettyDebugText for i8 {
    /// A value without parts has one debug rendering.
    open spec fn pretty_debug_text(&self) -> Seq<char> {
        crate::debug_text::int_text(*self as int)
    }

    fn fmt_pretty<W: TextSink>(&self, w: &mut W) -> (r: Result<(), WriteError>) {
        fmt_int(*self as i128, w)
    }
}

impl DisplayText for i16 {
    /// An integer shows as its decimal text.
    open spec fn display_text(&self) -> Seq<char> {
        crate::debug_text::int_text(*self as int)
    }

    fn fmt_display<W: TextSink>(&self, w: &mut W) -> (r: Result<(), WriteError>) {
        fmt_int(*self as i128, w)
    }
}

impl PrettyDebugText for i16 {
    /// A value without parts has one debug rendering.
    open spec fn pretty_debug_text(&self) -> Seq<char> {
        crate::debug_text::int_text(*self as int)
    }

    fn fmt_pretty<W: TextSink>(&self, w: &mut W) -> (r: Result<(), WriteError>) {
        fmt_int(*self as i128, w)
    }
}

impl DisplayText for i32 {
    /// An integer shows as its decimal text.
    open spec fn display_text(&self) -> Seq<char> {
        crate::debug_text::int_text(*self as int)
    }

    fn fmt_display<W: TextSink>(&self, w: &mut W) -> (r: Result<(), WriteError>) {
        fmt_int(*self as i128, w)
    }
}

impl PrettyDebugText for i32 {
    /// A value without parts has one debug rendering.
    open spec fn pretty_debug_text(&self) -> Seq<char> {
        crate::debug_text::int_text(*self as int)
    }

    fn fmt_pretty<W: TextSink>(&self, w: &mut W) -> (r: Result<(), WriteError>) {
        fmt_int(*self as i128, w)
    }
}

impl DisplayText for i64 {
    /// An integer shows as its decimal text.
    open spec fn display_text(&self) -> Seq<char> {
        crate::debug_text::int_text(*self as int)
    }

    fn fmt_display<W: TextSink>(&self, w: &mut W) -> (r: Result<(), WriteError>) {
        fmt_int(*self as i128, w)
    }
}

impl PrettyDebugText for i64 {
    /// A value without parts has one debug rendering.
    open spec fn pretty_debug_text(&self) -> Seq<char> {
        crate::debug_text::int_text(*self as int)
    }

    fn fmt_pretty<W: TextSink>(&self, w: &mut W) -> (r: Result<(), WriteError>) {
        fmt_int(*self as i128, w)
    }
}

impl DisplayText for i128 {
    /// An integer shows as its decimal text.
    open spec fn display_text(&self) -> Seq<char> {
        crate::debug_text::int_text(*self as int)
    }

    fn fmt_display<W: TextSink>(&self, w: &mut W) -> (r: Result<(), WriteError>) {
        fmt_int(*self, w)
    }
}

impl PrettyDebugText for i128 {
    /// A value without parts has one debug rendering.
    open spec fn pretty_debug_text(&self) -> Seq<char> {
        crate::debug_text::int_text(*self as int)
    }

    fn fmt_pretty<W: TextSink>(&self, w: &mut W) -> (r: Result<(), WriteError>) {
        fmt_int(*self, w)
    }
}

impl DisplayText for isize {
    /// An integer shows as its decimal text.
    open spec fn display_text(&self) -> Seq<char> {
        crate::debug_text::int_text(*self as int)
    }

    fn fmt_display<W: TextSink>(&self, w: &mut W) -> (r: Result<(), WriteError>) {
        fmt_int(*self as i128, w)
    }
}

impl PrettyDebugText for isize {
    /// A value without parts has one debug rendering.
    open spec fn pretty_debug_text(&self) -> Seq<char> {
        crate::debug_text::int_text(*self as int)
    }

    fn fmt_pretty<W: TextSink>(&self, w: &mut W) -> (r: Result<(), WriteError>) {
        fmt_int(*self as i128, w)
    }
}

} // verus!
