//! Renderings made ahead of time, for values whose rendering only their
//! own formatting code can produce.

use core::fmt::Write;
use vstd::prelude::*;
use crate::debug_text::DebugText;
use crate::debug_with::{DisplayText, PrettyDebugText};
use crate::writer::{TextSink, WriteError};

verus! {

/// A rendering that was made ahead of time. Whatever rendering of it is
/// asked for, it gives the text it holds, as it is.
#[derive(Clone, Eq, PartialEq, Ord, PartialOrd, Hash, Debug, Default)]
pub struct PreRendered(
    /// The rendering.
    pub String,
);

/// Renders `value` with its `Debug` implementation, by `write!` into a
/// `String`. What comes out, and whether the rendering fails, is up to that
/// implementation.
#[verifier::external_body]
fn debug_string<T: core::fmt::Debug>(value: &T) -> (text: Result<String, WriteError>) {
    let mut text = String::new();
    match write!(text, "{:?}", value) {
        Ok(()) => Ok(text),
        Err(_) => Err(WriteError),
    }
}

/// Renders `value` with its `Debug` implementation in the pretty form, by
/// `write!` into a `String`. What comes out, and whether the rendering
/// fails, is up to that implementation.
#[verifier::external_body]
fn pretty_debug_string<T: core::fmt::Debug>(value: &T) -> (text: Result<String, WriteError>) {
    let mut text = String::new();
    match write!(text, "{:#?}", value) {
        Ok(()) => Ok(text),
        Err(_) => Err(WriteError),
    }
}

/// Renders `value` with its `Display` implementation, by `write!` into a
/// `String`. What comes out, and whether the rendering fails, is up to that
/// implementation.
#[verifier::external_body]
fn display_string<T: core::fmt::Display>(value: &T) -> (text: Result<String, WriteError>) {
    let mut text = String::new();
    match write!(text, "{}", value) {
        Ok(()) => Ok(text),
        Err(_) => Err(WriteError),
    }
}

impl PreRendered {
    /// The rendering `text`.
    pub fn new(text: String) -> (rendered: Self)
        ensures
            rendered.0 == text,
    {
        PreRendered(text)
    }

    /// What a rendering attempt gave: the rendering that holds the text, or
    /// the failure handed on.
    pub fn of(text: Result<String, WriteError>) -> (rendered: Result<Self, WriteError>)
        ensures
            rendered == match text {
                Ok(text) => Ok(PreRendered(text)),
                Err(e) => Err(e),
            },
    {
        match text {
            Ok(text) => Ok(PreRendered::new(text)),
            Err(e) => Err(e),
        }
    }

    /// The debug rendering of `value`, made now. It fails where the
    /// value's formatting code fails.
    pub fn debug<T: core::fmt::Debug>(value: &T) -> (rendered: Result<Self, WriteError>) {
        PreRendered::of(debug_string(value))
    }

    /// The pretty debug rendering of `value`, made now. It fails where the
    /// value's formatting code fails.
    pub fn pretty_debug<T: core::fmt::Debug>(value: &T) -> (rendered: Result<Self, WriteError>) {
        PreRendered::of(pretty_debug_string(value))
    }

    /// The display rendering of `value`, made now. It fails where the
    /// value's formatting code fails.
    pub fn display<T: core::fmt::Display>(value: &T) -> (rendered: Result<Self, WriteError>) {
        PreRendered::of(display_string(value))
    }
}

impl DebugText for PreRendered {
    open spec fn debug_text(&self) -> Seq<char> {
        self.0@
    }

    fn fmt<W: TextSink>(&self, w: &mut W) -> (r: Result<(), WriteError>) {
        w.write_str(self.0.as_str())
    }
}

impl DisplayText for PreRendered {
    open spec fn display_text(&self) -> Seq<char> {
        self.0@
    }

    fn fmt_display<W: TextSink>(&self, w: &mut W) -> (r: Result<(), WriteError>) {
        w.write_str(self.0.as_str())
    }
}

impl PrettyDebugText for PreRendered {
    open spec fn pretty_debug_text(&self) -> Seq<char> {
        self.0@
    }

    fn fmt_pretty<W: TextSink>(&self, w: &mut W) -> (r: Result<(), WriteError>) {
        w.write_str(self.0.as_str())
    }
}

} // verus!
