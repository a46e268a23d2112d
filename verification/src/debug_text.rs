//! Debug renderings: what a value looks like in a rendered context.

use vstd::prelude::*;
use crate::writer::{TextSink, WriteError};

verus! {

/// A value with a debug rendering.
///
/// The rendering is a text that depends on the value alone, and `fmt` writes
/// that text to a sink.
pub trait DebugText {
    /// The debug rendering of the value.
    spec fn debug_text(&self) -> Seq<char>;

    /// Writes the debug rendering of the value to `w`.
    fn fmt<W: TextSink>(&self, w: &mut W) -> (r: Result<(), WriteError>)
        ensures
            crate::writer::wrote(*old(w), *final(w), r, self.debug_text()),
    ;
}

impl<T: DebugText> DebugText for &T {
    open spec fn debug_text(&self) -> Seq<char> {
        (**self).debug_text()
    }

    fn fmt<W: TextSink>(&self, w: &mut W) -> (r: Result<(), WriteError>) {
        (**self).fmt(w)
    }
}

/// The debug rendering of a string slice, as `<str as Debug>::fmt` writes
/// it: the text between double quotes, with escapes.
pub uninterp spec fn str_debug_text(s: Seq<char>) -> Seq<char>;

/// The debug rendering of a character, as `<char as Debug>::fmt` writes it:
/// the character between single quotes, escaped where needed.
pub uninterp spec fn char_debug_text(c: char) -> Seq<char>;

/// Renders `s` with `<str as Debug>::fmt`.
#[verifier::external_body]
fn str_debug_string(s: &str) -> (text: String)
    ensures
        text@ == str_debug_text(s@),
{
    format!("{:?}", s)
}

/// Renders `c` with `<char as Debug>::fmt`.
#[verifier::external_body]
fn char_debug_string(c: char) -> (text: String)
    ensures
        text@ == char_debug_text(c),
{
    format!("{:?}", c)
}

impl DebugText for &str {
    open spec fn debug_text(&self) -> Seq<char> {
        str_debug_text((*self)@)
    }

    fn fmt<W: TextSink>(&self, w: &mut W) -> (r: Result<(), WriteError>) {
        let text = str_debug_string(*self);
        w.write_str(text.as_str())
    }
}

impl DebugText for String {
    open spec fn debug_text(&self) -> Seq<char> {
        str_debug_text(self@)
    }

    fn fmt<W: TextSink>(&self, w: &mut W) -> (r: Result<(), WriteError>) {
        let text = str_debug_string(self.as_str());
        w.write_str(text.as_str())
    }
}

impl DebugText for char {
    open spec fn debug_text(&self) -> Seq<char> {
        char_debug_text(*self)
    }

    fn fmt<W: TextSink>(&self, w: &mut W) -> (r: Result<(), WriteError>) {
        let text = char_debug_string(*self);
        w.write_str(text.as_str())
    }
}

/// The text of a truth value: `true` or `false`.
pub open spec fn bool_text(b: bool) -> Seq<char> {
    if b {
        seq!['t', 'r', 'u', 'e']
    } else {
        seq!['f', 'a', 'l', 's', 'e']
    }
}

pub(crate) fn fmt_bool<W: TextSink>(b: bool, w: &mut W) -> (r: Result<(), WriteError>)
    ensures
        crate::writer::wrote(*old(w), *final(w), r, bool_text(b)),
{
    proof {
        reveal_strlit("true");
        reveal_strlit("false");
        assert("true"@ =~= seq!['t', 'r', 'u', 'e']);
        assert("false"@ =~= seq!['f', 'a', 'l', 's', 'e']);
    }
    if b {
        w.write_str("true")
    } else {
        w.write_str("false")
    }
}

impl DebugText for bool {
    open spec fn debug_text(&self) -> Seq<char> {
        bool_text(*self)
    }

    fn fmt<W: TextSink>(&self, w: &mut W) -> (r: Result<(), WriteError>) {
        fmt_bool(*self, w)
    }
}

/// The character of the decimal digit `d`.
pub open spec fn digit_char(d: int) -> char {
    if d == 0 {
        '0'
    } else if d == 1 {
        '1'
    } else if d == 2 {
        '2'
    } else if d == 3 {
        '3'
    } else if d == 4 {
        '4'
    } else if d == 5 {
        '5'
    } else if d == 6 {
        '6'
    } else if d == 7 {
        '7'
    } else if d == 8 {
        '8'
    } else {
        '9'
    }
}

/// The decimal digits of `n`, most significant first, without leading
/// zeros.
pub open spec fn decimal(n: nat) -> Seq<char>
    decreases n,
{
    if n < 10 {
        seq![digit_char(n as int)]
    } else {
        decimal(n / 10) + seq![digit_char((n % 10) as int)]
    }
}

/// The decimal text of an integer: a minus sign in front of the digits of a
/// negative number.
pub open spec fn int_text(i: int) -> Seq<char> {
    if i < 0 {
        seq!['-'] + decimal((-i) as nat)
    } else {
        decimal(i as nat)
    }
}

fn digit(d: u128) -> (c: char)
    requires
        d < 10,
    ensures
        c == digit_char(d as int),
{
    if d == 0 {
        '0'
    } else if d == 1 {
        '1'
    } else if d == 2 {
        '2'
    } else if d == 3 {
        '3'
    } else if d == 4 {
        '4'
    } else if d == 5 {
        '5'
    } else if d == 6 {
        '6'
    } else if d == 7 {
        '7'
    } else if d == 8 {
        '8'
    } else {
        '9'
    }
}

pub(crate) fn fmt_decimal<W: TextSink>(n: u128, w: &mut W) -> (r: Result<(), WriteError>)
    ensures
        crate::writer::wrote(*old(w), *final(w), r, decimal(n as nat)),
    decreases n,
{
    if n < 10 {
        w.write_char(digit(n))
    } else {
        let ghost before = *w;
        let ghost head = decimal((n / 10) as nat);
        let last = digit(n % 10);
        let r = fmt_decimal(n / 10, w);
        if r.is_err() {
            proof {
                crate::writer::lemma_wrote_failed(before, *w, r, head, seq![last]);
            }
            return r;
        }
        let ghost mid = *w;
        let r = w.write_char(last);
        proof {
            crate::writer::lemma_wrote_then(before, mid, *w, r, head, seq![last]);
        }
        r
    }
}

pub(crate) fn fmt_int<W: TextSink>(i: i128, w: &mut W) -> (r: Result<(), WriteError>)
    ensures
        crate::writer::wrote(*old(w), *final(w), r, int_text(i as int)),
{
    if i < 0 {
        let ghost before = *w;
        let magnitude: u128 = ((-(i + 1)) as u128) + 1;
        let r = w.write_char('-');
        if r.is_err() {
            proof {
                crate::writer::lemma_wrote_failed(
                    before,
                    *w,
                    r,
                    seq!['-'],
                    decimal(magnitude as nat),
                );
            }
            return r;
        }
        let ghost mid = *w;
        let r = fmt_decimal(magnitude, w);
        proof {
            crate::writer::lemma_wrote_then(
                before,
                mid,
                *w,
                r,
                seq!['-'],
                decimal(magnitude as nat),
            );
        }
        r
    } else {
        fmt_decimal(i as u128, w)
    }
}

impl DebugText for u8 {
    open spec fn debug_text(&self) -> Seq<char> {
        decimal(*self as nat)
    }

    fn fmt<W: TextSink>(&self, w: &mut W) -> (r: Result<(), WriteError>) {
        fmt_decimal(*self as u128, w)
    }
}

impl DebugText for u16 {
    open spec fn debug_text(&self) -> Seq<char> {
        decimal(*self as nat)
    }

    fn fmt<W: TextSink>(&self, w: &mut W) -> (r: Result<(), WriteError>) {
        fmt_decimal(*self as u128, w)
    }
}

impl DebugText for u32 {
    open spec fn debug_text(&self) -> Seq<char> {
        decimal(*self as nat)
    }

    fn fmt<W: TextSink>(&self, w: &mut W) -> (r: Result<(), WriteError>) {
        fmt_decimal(*self as u128, w)
    }
}

impl DebugText for u64 {
    open spec fn debug_text(&self) -> Seq<char> {
        decimal(*self as nat)
    }

    fn fmt<W: TextSink>(&self, w: &mut W) -> (r: Result<(), WriteError>) {
        fmt_decimal(*self as u128, w)
    }
}

impl DebugText for u128 {
    open spec fn debug_text(&self) -> Seq<char> {
        decimal(*self as nat)
    }

    fn fmt<W: TextSink>(&self, w: &mut W) -> (r: Result<(), WriteError>) {
        fmt_decimal(*self, w)
    }
}

impl DebugText for usize {
    open spec fn debug_text(&self) -> Seq<char> {
        decimal(*self as nat)
    }

    fn fmt<W: TextSink>(&self, w: &mut W) -> (r: Result<(), WriteError>) {
        fmt_decimal(*self as u128, w)
    }
}

impl DebugText for i8 {
    open spec fn debug_text(&self) -> Seq<char> {
        int_text(*self as int)
    }

    fn fmt<W: TextSink>(&self, w: &mut W) -> (r: Result<(), WriteError>) {
        fmt_int(*self as i128, w)
    }
}

impl DebugText for i16 {
    open spec fn debug_text(&self) -> Seq<char> {
        int_text(*self as int)
    }

    fn fmt<W: TextSink>(&self, w: &mut W) -> (r: Result<(), WriteError>) {
        fmt_int(*self as i128, w)
    }
}

impl DebugText for i32 {
    open spec fn debug_text(&self) -> Seq<char> {
        int_text(*self as int)
    }

    fn fmt<W: TextSink>(&self, w: &mut W) -> (r: Result<(), WriteError>) {
        fmt_int(*self as i128, w)
    }
}

impl DebugText for i64 {
    open spec fn debug_text(&self) -> Seq<char> {
        int_text(*self as int)
    }

    fn fmt<W: TextSink>(&self, w: &mut W) -> (r: Result<(), WriteError>) {
        fmt_int(*self as i128, w)
    }
}

impl DebugText for i128 {
    open spec fn debug_text(&self) -> Seq<char> {
        int_text(*self as int)
    }

    fn fmt<W: TextSink>(&self, w: &mut W) -> (r: Result<(), WriteError>) {
        fmt_int(*self, w)
    }
}

impl DebugText for isize {
    open spec fn debug_text(&self) -> Seq<char> {
        int_text(*self as int)
    }

    fn fmt<W: TextSink>(&self, w: &mut W) -> (r: Result<(), WriteError>) {
        fmt_int(*self as i128, w)
    }
}

} // verus!
