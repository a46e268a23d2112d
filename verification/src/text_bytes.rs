//! How a text and its UTF-8 bytes hang together, as far as finding ASCII
//! words in it goes.

use vstd::prelude::*;

verus! {

/// The UTF-8 bytes of `text`.
pub open spec fn bytes_of(text: Seq<char>) -> Seq<u8> {
    vstd::utf8::encode_utf8(text)
}

/// The number of bytes that `text` takes in UTF-8.
pub open spec fn utf8_len(text: Seq<char>) -> nat {
    bytes_of(text).len()
}

/// `c` is an ASCII character.
pub open spec fn is_ascii_char(c: char) -> bool {
    c <= '\u{7f}'
}

/// The bytes of two texts in a row are the bytes of the first, then those
/// of the second.
pub proof fn lemma_bytes_concat(head: Seq<char>, tail: Seq<char>)
    ensures
        bytes_of(head + tail) == bytes_of(head) + bytes_of(tail),
        utf8_len(head + tail) == utf8_len(head) + utf8_len(tail),
    decreases head.len(),
{
    if head.len() == 0 {
        assert(head + tail =~= tail);
        assert(bytes_of(head) + bytes_of(tail) =~= bytes_of(tail));
    } else {
        assert((head + tail).drop_first() =~= head.drop_first() + tail);
        lemma_bytes_concat(head.drop_first(), tail);
        assert(bytes_of(head + tail) =~= bytes_of(head) + bytes_of(tail));
    }
}

/// The bytes of a text fall into those of its first `at` characters and
/// those of the rest.
pub proof fn lemma_bytes_split(text: Seq<char>, at: int)
    requires
        0 <= at <= text.len(),
    ensures
        bytes_of(text) == bytes_of(text.take(at)) + bytes_of(text.skip(at)),
        utf8_len(text.take(at)) <= utf8_len(text),
        bytes_of(text).skip(utf8_len(text.take(at)) as int) == bytes_of(text.skip(at)),
{
    assert(text =~= text.take(at) + text.skip(at));
    lemma_bytes_concat(text.take(at), text.skip(at));
    assert((bytes_of(text.take(at)) + bytes_of(text.skip(at))).skip(
        utf8_len(text.take(at)) as int,
    ) =~= bytes_of(text.skip(at)));
}

/// One more character takes its own bytes more.
pub proof fn lemma_utf8_len_next(text: Seq<char>, at: int)
    requires
        0 <= at < text.len(),
    ensures
        utf8_len(text.take(at + 1)) == utf8_len(text.take(at)) + utf8_len(seq![text[at]]),
        utf8_len(text.take(at + 1)) <= utf8_len(text),
{
    assert(text.take(at + 1) =~= text.take(at) + seq![text[at]]);
    lemma_bytes_concat(text.take(at), seq![text[at]]);
    lemma_bytes_split(text, at + 1);
}

/// The byte of an ASCII scalar is the scalar, and the first byte of any
/// other scalar is no ASCII byte.
proof fn lemma_leading_byte(scalar: u32)
    requires
        vstd::utf8::is_scalar(scalar),
    ensures
        scalar <= 0x7f ==> vstd::utf8::encode_scalar(scalar) == seq![scalar as u8],
        scalar > 0x7f ==> vstd::utf8::encode_scalar(scalar).len() >= 2
            && vstd::utf8::encode_scalar(scalar)[0] >= 0x80,
{
    if scalar <= 0x7f {
        assert((scalar & 0x7F) as u8 == scalar as u8) by (bit_vector)
            requires
                scalar <= 0x7f,
        ;
    } else {
        let x = scalar;
        assert(0xC0u8 | (((x >> 6) & 0x1F) as u8) >= 0x80) by (bit_vector);
        assert(0xE0u8 | (((x >> 12) & 0x0F) as u8) >= 0x80) by (bit_vector);
        assert(0xF0u8 | (((x >> 18) & 0x7) as u8) >= 0x80) by (bit_vector);
    }
}

/// An ASCII character is a scalar below 128, and its byte is the
/// character.
proof fn lemma_ascii_scalar(c: char)
    ensures
        is_ascii_char(c) <==> c as u32 <= 0x7f,
        is_ascii_char(c) ==> (c as u32) as u8 == c as u8,
{
}

/// The first byte of a text tells of its first character: an ASCII byte is
/// that character, alone, and any other byte starts a character beyond
/// ASCII. A text without characters has no bytes.
pub proof fn lemma_first_byte(text: Seq<char>)
    ensures
        text.len() == 0 <==> bytes_of(text).len() == 0,
        text.len() > 0 ==> (is_ascii_char(text[0]) <==> bytes_of(text)[0] < 0x80),
        text.len() > 0 && is_ascii_char(text[0]) ==> bytes_of(text)[0] == text[0] as u8
            && bytes_of(text).skip(1) == bytes_of(text.drop_first()),
{
    if text.len() > 0 {
        let c = text[0];
        let scalar = c as u32;
        vstd::utf8::char_is_scalar(c);
        lemma_leading_byte(scalar);
        let first = vstd::utf8::encode_scalar(scalar);
        let rest = bytes_of(text.drop_first());
        assert(bytes_of(text) == first + rest);
        lemma_ascii_scalar(c);
        assert(first.len() >= 1);
        assert((first + rest)[0] == first[0]);
        if is_ascii_char(c) {
            assert(first == seq![scalar as u8]);
            assert(first.len() == 1);
            assert(scalar as u8 == c as u8);
            assert((first + rest).skip(1) =~= rest);
        }
    }
}

/// The first `count` characters of `text` are ASCII characters.
pub open spec fn ascii_chars(text: Seq<char>, count: int) -> bool {
    count <= text.len() && forall|j: int| 0 <= j < count ==> is_ascii_char(#[trigger] text[j])
}

/// The first `count` bytes of `bytes` are ASCII bytes.
pub open spec fn ascii_bytes(bytes: Seq<u8>, count: int) -> bool {
    count <= bytes.len() && forall|j: int| 0 <= j < count ==> #[trigger] bytes[j] < 0x80
}

/// A text starts with `count` ASCII characters exactly when its bytes start
/// with `count` ASCII bytes. These bytes are then those characters, one for
/// one, and behind them come the bytes of the rest of the text.
pub proof fn lemma_ascii_prefix(text: Seq<char>, count: int)
    requires
        0 <= count,
    ensures
        ascii_chars(text, count) <==> ascii_bytes(bytes_of(text), count),
        ascii_chars(text, count) ==> bytes_of(text).skip(count) == bytes_of(text.skip(count)),
        ascii_chars(text, count) ==> forall|j: int|
            0 <= j < count ==> #[trigger] bytes_of(text)[j] == text[j] as u8,
    decreases count,
{
    if count == 0 {
        assert(text.skip(0) =~= text);
        assert(bytes_of(text).skip(0) =~= bytes_of(text));
    } else {
        lemma_first_byte(text);
        if text.len() > 0 && is_ascii_char(text[0]) {
            let rest = text.drop_first();
            let bytes = bytes_of(text);
            lemma_ascii_prefix(rest, count - 1);
            assert(bytes.skip(1) == bytes_of(rest));
            assert forall|j: int| 0 <= j < bytes_of(rest).len() implies bytes_of(rest)[j]
                == bytes[j + 1] by {
                assert(bytes.skip(1)[j] == bytes[j + 1]);
            }
            if ascii_chars(text, count) {
                assert forall|j: int| 0 <= j < count - 1 implies is_ascii_char(
                    #[trigger] rest[j],
                ) by {
                    assert(rest[j] == text[j + 1]);
                }
                assert(ascii_chars(rest, count - 1));
                assert(ascii_bytes(bytes_of(rest), count - 1));
                assert forall|j: int| 0 <= j < count implies #[trigger] bytes[j] < 0x80
                    && bytes[j] == text[j] as u8 by {
                    if j > 0 {
                        assert(bytes_of(rest)[j - 1] == bytes[j]);
                        assert(rest[j - 1] == text[j]);
                    }
                }
                assert(bytes.skip(count) =~= bytes_of(rest).skip(count - 1));
                assert(text.skip(count) =~= rest.skip(count - 1));
            }
            if ascii_bytes(bytes, count) {
                assert forall|j: int| 0 <= j < count - 1 implies #[trigger] bytes_of(rest)[j]
                    < 0x80 by {
                    assert(bytes_of(rest)[j] == bytes[j + 1]);
                }
                assert(ascii_bytes(bytes_of(rest), count - 1));
                assert(ascii_chars(rest, count - 1));
                assert forall|j: int| 0 <= j < count implies is_ascii_char(#[trigger] text[j]) by {
                    if j > 0 {
                        assert(rest[j - 1] == text[j]);
                    }
                }
            }
        } else {
            if text.len() > 0 {
                assert(!is_ascii_char(text[0]));
                assert(!(bytes_of(text)[0] < 0x80));
            }
        }
    }
}

/// `word` stands at position `at` of `text`.
pub open spec fn starts_at(text: Seq<char>, at: int, word: Seq<char>) -> bool {
    &&& 0 <= at
    &&& at + word.len() <= text.len()
    &&& text.subrange(at, at + word.len()) == word
}

/// The bytes `word` stand at the offset `at` of `bytes`.
pub open spec fn bytes_start_at(bytes: Seq<u8>, at: int, word: Seq<u8>) -> bool {
    &&& 0 <= at
    &&& at + word.len() <= bytes.len()
    &&& bytes.subrange(at, at + word.len()) == word
}

/// Two ASCII characters with the same byte are the same character.
proof fn lemma_same_ascii(c: char, d: char)
    requires
        is_ascii_char(c),
        is_ascii_char(d),
        c as u8 == d as u8,
    ensures
        c == d,
{
}

/// A text has at least one byte for each character.
pub proof fn lemma_len_le_utf8_len(text: Seq<char>)
    ensures
        text.len() <= utf8_len(text),
    decreases text.len(),
{
    if text.len() > 0 {
        vstd::utf8::char_is_scalar(text[0]);
        lemma_leading_byte(text[0] as u32);
        lemma_len_le_utf8_len(text.drop_first());
    }
}

/// The offset of a later character position is a greater offset.
pub proof fn lemma_offsets_grow(text: Seq<char>, from: int, to: int)
    requires
        0 <= from <= to <= text.len(),
    ensures
        utf8_len(text.take(from)) + (to - from) <= utf8_len(text.take(to)),
{
    assert(text.take(to) =~= text.take(from) + text.subrange(from, to));
    lemma_bytes_concat(text.take(from), text.subrange(from, to));
    lemma_len_le_utf8_len(text.subrange(from, to));
}

/// An ASCII word stands at a position of a text exactly when its bytes
/// stand at the offset of that position in the bytes of the text. Behind
/// the word the bytes end where the text ends, and the next byte is an
/// ASCII byte exactly when the next character is an ASCII character, which
/// it then is.
pub proof fn lemma_starts_at_bytes(text: Seq<char>, at: int, word: Seq<char>)
    requires
        0 <= at <= text.len(),
        ascii_chars(word, word.len() as int),
    ensures
        bytes_of(word).len() == word.len(),
        starts_at(text, at, word) <==> bytes_start_at(
            bytes_of(text),
            utf8_len(text.take(at)) as int,
            bytes_of(word),
        ),
        starts_at(text, at, word) ==> ({
            let end = at + word.len();
            let offset = (utf8_len(text.take(at)) + word.len()) as int;
            &&& utf8_len(text.take(end)) == offset
            &&& (end == text.len() <==> offset == bytes_of(text).len())
            &&& end < text.len() ==> (is_ascii_char(text[end]) <==> bytes_of(text)[offset] < 0x80)
            &&& end < text.len() && is_ascii_char(text[end]) ==> bytes_of(text)[offset]
                == text[end] as u8
        }),
{
    let n = word.len() as int;
    let tail = text.skip(at);
    let bytes = bytes_of(text);
    let offset = utf8_len(text.take(at)) as int;
    let tail_bytes = bytes_of(tail);
    let word_bytes = bytes_of(word);
    lemma_bytes_split(text, at);
    assert(tail_bytes.len() == bytes.len() - offset);
    assert forall|j: int| 0 <= j < tail_bytes.len() implies tail_bytes[j] == bytes[offset + j] by {
        assert(bytes.skip(offset)[j] == bytes[offset + j]);
    }
    // The bytes of the word are its characters.
    lemma_ascii_prefix(word, n);
    assert(word.skip(n) =~= Seq::<char>::empty());
    assert(word_bytes.skip(n).len() == 0);
    assert(word_bytes.len() == n);
    // The bytes of the tail are its characters, as far as they are ASCII.
    lemma_ascii_prefix(tail, n);
    if starts_at(text, at, word) {
        assert forall|j: int| 0 <= j < n implies is_ascii_char(#[trigger] tail[j]) by {
            assert(text.subrange(at, at + n)[j] == tail[j]);
        }
        assert(ascii_chars(tail, n));
        assert forall|j: int| 0 <= j < n implies bytes.subrange(offset, offset + n)[j]
            == word_bytes[j] by {
            assert(text.subrange(at, at + n)[j] == tail[j]);
            assert(tail_bytes[j] == tail[j] as u8);
            assert(word_bytes[j] == word[j] as u8);
        }
        assert(bytes.subrange(offset, offset + n) =~= word_bytes);
        assert(text.take(at + n) =~= text.take(at) + word);
        lemma_bytes_concat(text.take(at), word);
    }
    if bytes_start_at(bytes, offset, word_bytes) {
        assert forall|j: int| 0 <= j < n implies #[trigger] tail_bytes[j] < 0x80 by {
            assert(bytes.subrange(offset, offset + n)[j] == tail_bytes[j]);
            assert(word_bytes[j] == word[j] as u8);
            lemma_ascii_scalar(word[j]);
        }
        assert(ascii_bytes(tail_bytes, n));
        assert(ascii_chars(tail, n));
        assert forall|j: int| 0 <= j < n implies text.subrange(at, at + n)[j] == word[j] by {
            assert(bytes.subrange(offset, offset + n)[j] == tail_bytes[j]);
            assert(tail_bytes[j] == tail[j] as u8);
            assert(word_bytes[j] == word[j] as u8);
            lemma_same_ascii(tail[j], word[j]);
        }
        assert(text.subrange(at, at + n) =~= word);
    }
    if ascii_chars(tail, n) {
        // Behind the word: the end, or a character and its first byte.
        let rest = tail.skip(n);
        assert(tail_bytes.skip(n) == bytes_of(rest));
        assert(rest.len() == text.len() - at - n);
        assert(bytes_of(rest).len() == bytes.len() - offset - n);
        lemma_first_byte(rest);
        if rest.len() > 0 {
            assert(rest[0] == text[at + n]);
            assert(tail_bytes.skip(n)[0] == tail_bytes[n]);
            assert(bytes_of(rest)[0] == bytes[offset + n]);
        }
    }
}

} // verus!
