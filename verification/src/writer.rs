//! Text sinks: where rendered context goes, and the protocol that every
//! renderer follows when it writes to one.

use vstd::prelude::*;

verus! {

/// The single failure a rendering step can report: the sink did not take all
/// of the text that was handed to it.
#[derive(Clone, Copy, Debug, PartialEq, Eq, Structural)]
pub struct WriteError;

/// A sink for text.
///
/// A sink is modelled by the text it has taken so far, by the texts it
/// would still take, and by the points at which it was flushed. Taking text
/// is all or nothing as far as the result goes: a write succeeds exactly
/// when the sink accepts the text, and the sink then holds the old text
/// followed by the new one. No write flushes.
pub trait TextSink: Sized {
    /// Everything the sink has taken so far.
    spec fn written(&self) -> Seq<char>;

    /// Whether a write of `text` would succeed now.
    spec fn accepts(&self, text: Seq<char>) -> bool;

    /// The flushes of the sink so far, in order: for each one, how much
    /// text the sink had taken when it was flushed.
    spec fn flush_marks(&self) -> Seq<nat>;

    /// Writing nothing always succeeds.
    proof fn lemma_accepts_empty(&self)
        ensures
            self.accepts(Seq::<char>::empty()),
    ;

    /// A sink that accepts a text accepts each of its prefixes.
    proof fn lemma_accepts_prefix(&self, head: Seq<char>, tail: Seq<char>)
        requires
            self.accepts(head + tail),
        ensures
            self.accepts(head),
    ;

    /// Appends `s` to the sink: succeeds exactly when the sink accepts `s`, and
    /// on failure leaves a prefix of `s` behind.
    fn write_str(&mut self, s: &str) -> (r: Result<(), WriteError>)
        ensures
            match r {
                Ok(_) => {
                    &&& (*old(self)).accepts(s@)
                    &&& (*final(self)).written() == (*old(self)).written() + s@
                    &&& forall|t: Seq<char>| #[trigger]
                        (*final(self)).accepts(t) == (*old(self)).accepts(s@ + t)
                    &&& (*final(self)).flush_marks() == (*old(self)).flush_marks()
                },
                Err(_) => {
                    let n = (*final(self)).written().len() - (*old(self)).written().len();
                    &&& !(*old(self)).accepts(s@)
                    &&& 0 <= n <= s@.len()
                    &&& (*final(self)).written() == (*old(self)).written() + s@.take(n)
                    &&& (*final(self)).flush_marks() == (*old(self)).flush_marks()
                },
            },
    ;

    /// Appends the single character `c` to the sink.
    fn write_char(&mut self, c: char) -> (r: Result<(), WriteError>)
        ensures
            match r {
                Ok(_) => {
                    &&& (*old(self)).accepts(seq![c])
                    &&& (*final(self)).written() == (*old(self)).written() + seq![c]
                    &&& forall|t: Seq<char>| #[trigger]
                        (*final(self)).accepts(t) == (*old(self)).accepts(seq![c] + t)
                    &&& (*final(self)).flush_marks() == (*old(self)).flush_marks()
                },
                Err(_) => {
                    let n = (*final(self)).written().len() - (*old(self)).written().len();
                    &&& !(*old(self)).accepts(seq![c])
                    &&& 0 <= n <= seq![c].len()
                    &&& (*final(self)).written() == (*old(self)).written() + seq![c].take(n)
                    &&& (*final(self)).flush_marks() == (*old(self)).flush_marks()
                },
            },
    ;
}

/// A sink that can be flushed.
pub trait FlushSink: TextSink {
    /// Whether a flush would succeed now.
    spec fn flushes(&self) -> bool;

    /// Pushes buffered text out: succeeds exactly when the sink flushes.
    /// Whether it succeeds or not, the flush is on record, at the end of the
    /// text taken so far. The text and what the sink accepts stay as they
    /// are.
    fn flush(&mut self) -> (r: Result<(), WriteError>)
        ensures
            r is Ok <==> (*old(self)).flushes(),
            same_sink(*old(self), *final(self)),
            (*final(self)).flush_marks() == (*old(self)).flush_marks().push(
                (*old(self)).written().len(),
            ),
    ;
}

/// `after` holds the same text as `before` and accepts the same texts.
pub open spec fn same_sink<W: TextSink>(before: W, after: W) -> bool {
    &&& after.written() == before.written()
    &&& forall|t: Seq<char>| #[trigger] after.accepts(t) == before.accepts(t)
}

/// Since `before`, the sink took exactly `text` and nothing was refused.
pub open spec fn took<W: TextSink>(before: W, after: W, text: Seq<char>) -> bool {
    &&& before.accepts(text)
    &&& after.written() == before.written() + text
    &&& forall|t: Seq<char>| #[trigger] after.accepts(t) == before.accepts(text + t)
}

/// Since `before`, the sink took some prefix of `text`.
pub open spec fn took_part<W: TextSink>(before: W, after: W, text: Seq<char>) -> bool {
    let n = after.written().len() - before.written().len();
    &&& 0 <= n <= text.len()
    &&& after.written() == before.written() + text.take(n)
}

/// Since `before`, the sink took exactly `text`, nothing was refused, and
/// the sink was not flushed.
pub open spec fn progress<W: TextSink>(before: W, after: W, text: Seq<char>) -> bool {
    took(before, after, text) && after.flush_marks() == before.flush_marks()
}

/// Since `before`, the sink took some prefix of `text` and was not
/// flushed.
pub open spec fn partial<W: TextSink>(before: W, after: W, text: Seq<char>) -> bool {
    took_part(before, after, text) && after.flush_marks() == before.flush_marks()
}

/// What a renderer of `text` leaves behind: on success the sink took all of
/// `text`; it fails exactly when the sink does not accept `text`, and then the
/// sink holds a prefix of it.
pub open spec fn wrote<W: TextSink>(
    before: W,
    after: W,
    r: Result<(), WriteError>,
    text: Seq<char>,
) -> bool {
    match r {
        Ok(_) => progress(before, after, text),
        Err(_) => !before.accepts(text) && partial(before, after, text),
    }
}

/// Nothing written yet is progress.
pub proof fn lemma_progress_start<W: TextSink>(w: W)
    ensures
        progress(w, w, Seq::<char>::empty()),
{
    w.lemma_accepts_empty();
    assert(w.written() + Seq::<char>::empty() =~= w.written());
    assert forall|t: Seq<char>| #[trigger] w.accepts(t) == w.accepts(Seq::<char>::empty() + t) by {
        assert(Seq::<char>::empty() + t =~= t);
    }
}

/// A renderer that ran after `head` had been taken extends the progress, or
/// fails for the whole text, whatever `tail` would have followed.
pub proof fn lemma_progress_step<W: TextSink>(
    before: W,
    mid: W,
    after: W,
    r: Result<(), WriteError>,
    head: Seq<char>,
    text: Seq<char>,
    tail: Seq<char>,
)
    requires
        progress(before, mid, head),
        wrote(mid, after, r, text),
    ensures
        r is Ok ==> progress(before, after, head + text),
        r is Err ==> wrote(before, after, r, head + text + tail),
{
    if r is Ok {
        assert(before.accepts(head + text)) by {
            assert(text + Seq::<char>::empty() =~= text);
            mid.lemma_accepts_empty();
            assert(after.accepts(Seq::<char>::empty()) == mid.accepts(text + Seq::<char>::empty()));
        }
        assert(after.written() =~= before.written() + (head + text));
        assert forall|t: Seq<char>| #[trigger]
            after.accepts(t) == before.accepts(head + text + t) by {
            assert(head + (text + t) =~= head + text + t);
        }
    } else {
        let full = head + text + tail;
        if before.accepts(full) {
            before.lemma_accepts_prefix(head + text, tail);
        }
        let n = after.written().len() - mid.written().len();
        assert(after.written() =~= before.written() + full.take(head.len() + n));
    }
}

/// Rendering two texts in a row renders their concatenation.
pub proof fn lemma_wrote_then<W: TextSink>(
    before: W,
    mid: W,
    after: W,
    r: Result<(), WriteError>,
    head: Seq<char>,
    tail: Seq<char>,
)
    requires
        wrote(before, mid, Ok(()), head),
        wrote(mid, after, r, tail),
    ensures
        wrote(before, after, r, head + tail),
{
    lemma_progress_step(before, mid, after, r, head, tail, Seq::<char>::empty());
    assert(head + tail + Seq::<char>::empty() =~= head + tail);
}

/// A failed rendering of `head` is a failed rendering of any text that
/// starts with `head`.
pub proof fn lemma_wrote_failed<W: TextSink>(
    before: W,
    after: W,
    r: Result<(), WriteError>,
    head: Seq<char>,
    tail: Seq<char>,
)
    requires
        r is Err,
        wrote(before, after, r, head),
    ensures
        wrote(before, after, r, head + tail),
{
    if before.accepts(head + tail) {
        before.lemma_accepts_prefix(head, tail);
    }
    let n = after.written().len() - before.written().len();
    assert((head + tail).take(n) =~= head.take(n));
}

/// Appends one character to a `String` with `String::push`: the string then
/// holds what it held, followed by `c`.
#[verifier::external_body]
fn string_push(text: &mut String, c: char)
    ensures
        final(text)@ == old(text)@.push(c),
{
    text.push(c);
}

/// The number of bytes that `c` takes in UTF-8.
pub(crate) fn char_len_utf8(c: char) -> (n: usize)
    ensures
        n == crate::text_bytes::utf8_len(seq![c]),
        1 <= n <= 4,
{
    proof {
        vstd::utf8::char_is_scalar(c);
        let text = seq![c];
        assert(text[0] == c);
        assert(text.drop_first() =~= Seq::<char>::empty());
        assert(vstd::utf8::encode_utf8(text.drop_first()) =~= Seq::<u8>::empty());
        assert(crate::text_bytes::bytes_of(text) =~= vstd::utf8::encode_scalar(c as u32));
    }
    let scalar = c as u32;
    if scalar <= 0x7f {
        1
    } else if scalar <= 0x7ff {
        2
    } else if scalar <= 0xffff {
        3
    } else {
        4
    }
}

/// A `String` takes whatever it is given.
impl TextSink for String {
    open spec fn written(&self) -> Seq<char> {
        self@
    }

    open spec fn accepts(&self, text: Seq<char>) -> bool {
        true
    }

    /// A `String` holds nothing back, and so is never flushed.
    open spec fn flush_marks(&self) -> Seq<nat> {
        Seq::<nat>::empty()
    }

    proof fn lemma_accepts_empty(&self) {
    }

    proof fn lemma_accepts_prefix(&self, head: Seq<char>, tail: Seq<char>) {
    }

    fn write_str(&mut self, s: &str) -> (r: Result<(), WriteError>)
        ensures
            r is Ok,
    {
        self.append(s);
        Ok(())
    }

    fn write_char(&mut self, c: char) -> (r: Result<(), WriteError>)
        ensures
            r is Ok,
    {
        string_push(self, c);
        assert(self@ =~= old(self)@ + seq![c]);
        Ok(())
    }
}

/// A sink behind a mutable reference is a sink.
impl<W: TextSink> TextSink for &mut W {
    open spec fn written(&self) -> Seq<char> {
        (**self).written()
    }

    open spec fn accepts(&self, text: Seq<char>) -> bool {
        (**self).accepts(text)
    }

    open spec fn flush_marks(&self) -> Seq<nat> {
        (**self).flush_marks()
    }

    proof fn lemma_accepts_empty(&self) {
        (**self).lemma_accepts_empty();
    }

    proof fn lemma_accepts_prefix(&self, head: Seq<char>, tail: Seq<char>) {
        (**self).lemma_accepts_prefix(head, tail);
    }

    fn write_str(&mut self, s: &str) -> (r: Result<(), WriteError>) {
        (**self).write_str(s)
    }

    fn write_char(&mut self, c: char) -> (r: Result<(), WriteError>) {
        (**self).write_char(c)
    }
}

/// A sink behind a mutable reference is flushed as the sink is.
impl<W: FlushSink> FlushSink for &mut W {
    open spec fn flushes(&self) -> bool {
        (**self).flushes()
    }

    fn flush(&mut self) -> (r: Result<(), WriteError>) {
        (**self).flush()
    }
}

/// A sink with room for a fixed number of bytes of UTF-8 text.
///
/// A write that does not fit fails and leaves the text as it was. The sink
/// holds nothing back, so a flush always succeeds; it counts its flushes.
pub struct FixedBufWriter {
    text: String,
    room: usize,
    flushes: usize,
    marks: Ghost<Seq<nat>>,
}

impl FixedBufWriter {
    /// The text taken so far.
    pub closed spec fn view(&self) -> Seq<char> {
        self.text@
    }

    /// The number of bytes that can still be taken.
    pub closed spec fn room(&self) -> nat {
        self.room as nat
    }

    /// The flushes so far: for each one, the length of the text when the
    /// sink was flushed.
    pub closed spec fn marks(&self) -> Seq<nat> {
        self.marks@
    }

    /// The number of flushes that the sink has counted: all of them, up to
    /// the greatest number it can hold.
    pub closed spec fn counted(&self) -> nat {
        self.flushes as nat
    }

    /// An empty sink with room for `capacity` bytes, never flushed.
    pub fn new(capacity: usize) -> (w: Self)
        ensures
            w@ == Seq::<char>::empty(),
            w.room() == capacity,
            w.marks() == Seq::<nat>::empty(),
            w.counted() == 0,
    {
        FixedBufWriter {
            text: String::new(),
            room: capacity,
            flushes: 0,
            marks: Ghost(Seq::empty()),
        }
    }

    /// The number of flushes that the sink has counted.
    pub fn flush_count(&self) -> (n: usize)
        ensures
            n == self.counted(),
    {
        self.flushes
    }

    /// The number of bytes that can still be taken.
    pub fn remaining(&self) -> (n: usize)
        ensures
            n == self.room(),
    {
        self.room
    }

    /// The text taken so far.
    pub fn as_str(&self) -> (s: &str)
        ensures
            s@ == self@,
    {
        self.text.as_str()
    }

    /// Gives up the sink for the text taken so far.
    pub fn into_string(self) -> (s: String)
        ensures
            s@ == self@,
    {
        self.text
    }
}

impl TextSink for FixedBufWriter {
    open spec fn written(&self) -> Seq<char> {
        self@
    }

    /// The sink takes the texts whose bytes fit into the room that is left.
    open spec fn accepts(&self, text: Seq<char>) -> bool {
        crate::text_bytes::utf8_len(text) <= self.room()
    }

    open spec fn flush_marks(&self) -> Seq<nat> {
        self.marks()
    }

    proof fn lemma_accepts_empty(&self) {
    }

    proof fn lemma_accepts_prefix(&self, head: Seq<char>, tail: Seq<char>) {
        crate::text_bytes::lemma_bytes_concat(head, tail);
    }

    fn write_str(&mut self, s: &str) -> (r: Result<(), WriteError>)
        ensures
            r is Ok ==> final(self).room() + crate::text_bytes::utf8_len(s@) == old(self).room(),
            r is Err ==> *final(self) == *old(self),
            final(self).counted() == old(self).counted(),
    {
        let need = s.as_bytes().len();
        if need <= self.room {
            self.text.append(s);
            self.room = self.room - need;
            proof {
                assert forall|t: Seq<char>|
                    crate::text_bytes::utf8_len(t) <= self.room() <==> #[trigger]
                    crate::text_bytes::utf8_len(s@ + t) <= old(self).room() by {
                    crate::text_bytes::lemma_bytes_concat(s@, t);
                }
            }
            Ok(())
        } else {
            proof {
                assert(old(self)@ + s@.take(0) =~= self@);
            }
            Err(WriteError)
        }
    }

    fn write_char(&mut self, c: char) -> (r: Result<(), WriteError>)
        ensures
            r is Ok ==> final(self).room() + crate::text_bytes::utf8_len(seq![c]) == old(
                self,
            ).room(),
            r is Err ==> *final(self) == *old(self),
            final(self).counted() == old(self).counted(),
    {
        let need = char_len_utf8(c);
        if need <= self.room {
            string_push(&mut self.text, c);
            self.room = self.room - need;
            proof {
                assert(self@ =~= old(self)@ + seq![c]);
                assert forall|t: Seq<char>|
                    crate::text_bytes::utf8_len(t) <= self.room() <==> #[trigger]
                    crate::text_bytes::utf8_len(seq![c] + t) <= old(self).room() by {
                    crate::text_bytes::lemma_bytes_concat(seq![c], t);
                }
            }
            Ok(())
        } else {
            proof {
                assert(old(self)@ + seq![c].take(0) =~= self@);
            }
            Err(WriteError)
        }
    }
}

impl FlushSink for FixedBufWriter {
    /// There is nothing to push out, so a flush succeeds.
    open spec fn flushes(&self) -> bool {
        true
    }

    fn flush(&mut self) -> (r: Result<(), WriteError>)
        ensures
            final(self).room() == old(self).room(),
            final(self).counted() == if old(self).counted() < usize::MAX {
                old(self).counted() + 1
            } else {
                old(self).counted()
            },
    {
        if self.flushes < usize::MAX {
            self.flushes = self.flushes + 1;
        }
        self.marks = Ghost(self.marks@.push(self.text@.len()));
        Ok(())
    }
}

/// Writes `s` as the next piece of a longer text, of which `head` has been
/// taken since `before` and `tail` is still to come.
pub(crate) fn write_piece<W: TextSink>(
    w: &mut W,
    s: &str,
    Ghost(before): Ghost<W>,
    Ghost(head): Ghost<Seq<char>>,
    Ghost(tail): Ghost<Seq<char>>,
) -> (r: Result<(), WriteError>)
    requires
        progress(before, *old(w), head),
    ensures
        r is Ok ==> progress(before, *final(w), head + s@),
        r is Err ==> wrote(before, *final(w), r, head + s@ + tail),
{
    let ghost mid = *w;
    let r = w.write_str(s);
    proof {
        lemma_progress_step(before, mid, *w, r, head, s@, tail);
    }
    r
}

/// Writes `c` as the next piece of a longer text, of which `head` has been
/// taken since `before` and `tail` is still to come.
pub(crate) fn write_piece_char<W: TextSink>(
    w: &mut W,
    c: char,
    Ghost(before): Ghost<W>,
    Ghost(head): Ghost<Seq<char>>,
    Ghost(tail): Ghost<Seq<char>>,
) -> (r: Result<(), WriteError>)
    requires
        progress(before, *old(w), head),
    ensures
        r is Ok ==> progress(before, *final(w), head + seq![c]),
        r is Err ==> wrote(before, *final(w), r, head + seq![c] + tail),
{
    let ghost mid = *w;
    let r = w.write_char(c);
    proof {
        lemma_progress_step(before, mid, *w, r, head, seq![c], tail);
    }
    r
}

/// A renderer never fits a text into a buffer that is too short for it:
/// writing `text` to a buffer with room for fewer bytes than `text` takes
/// fails, and writing it to a buffer with room enough succeeds.
pub proof fn lemma_fixed_buf_fails_when_short(
    before: FixedBufWriter,
    after: FixedBufWriter,
    r: Result<(), WriteError>,
    text: Seq<char>,
)
    requires
        wrote(before, after, r, text),
    ensures
        r is Err <==> before.room() < crate::text_bytes::utf8_len(text),
        r is Ok ==> after@ == before@ + text && after.room() + crate::text_bytes::utf8_len(text)
            == before.room(),
        r is Err ==> after@.is_prefix_of(before@ + text),
{
    if r is Ok {
        assert(text + Seq::<char>::empty() =~= text);
        assert(after.accepts(Seq::<char>::empty()) == before.accepts(text + Seq::<char>::empty()));
        lemma_room_after(before, after, text);
    } else {
        let n = after@.len() - before@.len();
        assert((before@ + text.take(n)).is_prefix_of(before@ + text));
    }
}

/// A buffer that took `text` has that much less room.
proof fn lemma_room_after(before: FixedBufWriter, after: FixedBufWriter, text: Seq<char>)
    requires
        progress(before, after, text),
    ensures
        after.room() + crate::text_bytes::utf8_len(text) == before.room(),
{
    // The room is pinned down by the one-byte texts that still fit.
    let left = (before.room() - crate::text_bytes::utf8_len(text)) as nat;
    let fill = Seq::new(left, |i: int| 'a');
    lemma_utf8_len_ascii(fill);
    crate::text_bytes::lemma_bytes_concat(text, fill);
    assert(before.accepts(text + fill));
    assert(after.accepts(fill));
    if after.room() > left {
        let more = Seq::new(after.room(), |i: int| 'a');
        lemma_utf8_len_ascii(more);
        crate::text_bytes::lemma_bytes_concat(text, more);
        assert(after.accepts(more));
        assert(before.accepts(text + more));
    }
}

/// A text of ASCII characters takes one byte for each.
proof fn lemma_utf8_len_ascii(text: Seq<char>)
    requires
        forall|i: int| 0 <= i < text.len() ==> text[i] == 'a',
    ensures
        crate::text_bytes::utf8_len(text) == text.len(),
{
    assert(vstd::utf8::is_ascii_chars(text));
    vstd::utf8::is_ascii_chars_encode_utf8(text);
}

} // verus!
