//! The colouriser: a scanner that reads the plain rendering of a value one
//! character at a time and writes it out again with a styling sequence in
//! front of every run of characters of a new kind.

use vstd::prelude::*;
use crate::color_scheme::AnsiColorScheme;
use crate::writer::{char_len_utf8, write_piece, write_piece_char, TextSink, WriteError};

verus! {

/// Where the scanner stands after a character.
#[derive(Copy, Clone, Eq, PartialEq, Hash, Debug, Structural)]
pub enum ColoredWriterMode {
    Default,
    Ident,
    Item,
    Boolean,
    Number,
    DoubleQuoted,
    DoubleQuotedEscapeChar,
    DoubleQuotedEscaped,
    SingleQuoted,
    SingleQuotedEscapeChar,
    SingleQuotedEscaped,
    QuotedEnd,
    Brace,
}

/// The kind of text a character is styled as.
#[derive(Copy, Clone, Eq, PartialEq, Hash, Debug, Structural)]
pub enum ColoredWriterModeStyle {
    Default,
    Ident,
    Item,
    Boolean,
    Number,
    Quoted,
    Escaped,
    Brace,
}

/// The styling sequence of `style` in `scheme`.
pub open spec fn ansi_style_of(style: ColoredWriterModeStyle, scheme: AnsiColorScheme) -> Seq<
    char,
> {
    match style {
        ColoredWriterModeStyle::Default => scheme.default@,
        ColoredWriterModeStyle::Ident => scheme.ident@,
        ColoredWriterModeStyle::Item => scheme.item@,
        ColoredWriterModeStyle::Boolean => scheme.boolean@,
        ColoredWriterModeStyle::Number => scheme.number@,
        ColoredWriterModeStyle::Quoted => scheme.quoted@,
        ColoredWriterModeStyle::Escaped => scheme.escaped@,
        ColoredWriterModeStyle::Brace => scheme.value_braces@,
    }
}

/// The style of the character after which the scanner stands in `mode`.
pub open spec fn style_of(mode: ColoredWriterMode) -> ColoredWriterModeStyle {
    match mode {
        ColoredWriterMode::Default => ColoredWriterModeStyle::Default,
        ColoredWriterMode::Ident => ColoredWriterModeStyle::Ident,
        ColoredWriterMode::Item => ColoredWriterModeStyle::Item,
        ColoredWriterMode::Boolean => ColoredWriterModeStyle::Boolean,
        ColoredWriterMode::Number => ColoredWriterModeStyle::Number,
        ColoredWriterMode::DoubleQuoted
        | ColoredWriterMode::SingleQuoted
        | ColoredWriterMode::QuotedEnd => ColoredWriterModeStyle::Quoted,
        ColoredWriterMode::DoubleQuotedEscapeChar
        | ColoredWriterMode::DoubleQuotedEscaped
        | ColoredWriterMode::SingleQuotedEscapeChar
        | ColoredWriterMode::SingleQuotedEscaped => ColoredWriterModeStyle::Escaped,
        ColoredWriterMode::Brace => ColoredWriterModeStyle::Brace,
    }
}

impl ColoredWriterModeStyle {
    /// The styling sequence of this style in `color_scheme`.
    pub fn ansi_style(&self, color_scheme: &AnsiColorScheme) -> (r: &'static str)
        ensures
            r@ == ansi_style_of(*self, *color_scheme),
    {
        match self {
            Self::Default => color_scheme.default,
            Self::Ident => color_scheme.ident,
            Self::Item => color_scheme.item,
            Self::Boolean => color_scheme.boolean,
            Self::Number => color_scheme.number,
            Self::Quoted => color_scheme.quoted,
            Self::Escaped => color_scheme.escaped,
            Self::Brace => color_scheme.value_braces,
        }
    }
}

impl ColoredWriterMode {
    /// The style of the character after which the scanner stands.
    pub fn style(self) -> (r: ColoredWriterModeStyle)
        ensures
            r == style_of(self),
    {
        match self {
            Self::Default => ColoredWriterModeStyle::Default,
            Self::Ident => ColoredWriterModeStyle::Ident,
            Self::Item => ColoredWriterModeStyle::Item,
            Self::Boolean => ColoredWriterModeStyle::Boolean,
            Self::Number => ColoredWriterModeStyle::Number,
            Self::DoubleQuoted | Self::SingleQuoted | Self::QuotedEnd => {
                ColoredWriterModeStyle::Quoted
            },
            Self::DoubleQuotedEscapeChar
            | Self::DoubleQuotedEscaped
            | Self::SingleQuotedEscapeChar
            | Self::SingleQuotedEscaped => ColoredWriterModeStyle::Escaped,
            Self::Brace => ColoredWriterModeStyle::Brace,
        }
    }
}

/// A digit, a sign or a decimal point.
pub open spec fn is_number_char(c: char) -> bool {
    ('0' <= c && c <= '9') || c == '+' || c == '-' || c == '.'
}

/// A round, square or curly bracket.
pub open spec fn is_brace_char(c: char) -> bool {
    c == '(' || c == ')' || c == '[' || c == ']' || c == '{' || c == '}'
}

/// Whether Unicode counts `c` as alphabetic or numeric, as
/// `char::is_alphanumeric` tells.
pub uninterp spec fn char_is_alphanumeric(c: char) -> bool;

/// Asks `char::is_alphanumeric` whether `c` is alphabetic or numeric.
#[verifier::external_body]
fn is_alphanumeric(c: char) -> (b: bool)
    ensures
        b == char_is_alphanumeric(c),
{
    c.is_alphanumeric()
}

/// A letter or a digit, given what Unicode says of the character: an
/// ASCII letter or digit, or a character beyond ASCII that Unicode counts
/// as alphabetic or numeric.
pub open spec fn is_alphanumeric_given(c: char, unicode: bool) -> bool {
    if c <= '\u{7f}' {
        ('a' <= c && c <= 'z') || ('A' <= c && c <= 'Z') || ('0' <= c && c <= '9')
    } else {
        unicode
    }
}

/// A letter or a digit: an ASCII letter or digit, or a character beyond
/// ASCII that Unicode counts as alphabetic or numeric.
pub open spec fn is_alphanumeric_char(c: char) -> bool {
    is_alphanumeric_given(c, char_is_alphanumeric(c))
}

/// Tells whether `c` is a letter or a digit, given in `unicode` whether
/// Unicode counts it as alphabetic or numeric. For an ASCII character the
/// answer is that of the character itself.
pub fn alphanumeric_given(c: char, unicode: bool) -> (b: bool)
    ensures
        b == is_alphanumeric_given(c, unicode),
{
    if c <= '\u{7f}' {
        ('a' <= c && c <= 'z') || ('A' <= c && c <= 'Z') || ('0' <= c && c <= '9')
    } else {
        unicode
    }
}

/// Tells whether `c` continues a word, given in `unicode` whether Unicode
/// counts it as alphabetic or numeric: whether it is a letter, a digit or
/// an underscore.
pub fn continues_word_given(c: char, unicode: bool) -> (b: bool)
    ensures
        b == (is_alphanumeric_given(c, unicode) || c == '_'),
{
    alphanumeric_given(c, unicode) || c == '_'
}

fn alphanumeric(c: char) -> (b: bool)
    ensures
        b == is_alphanumeric_char(c),
{
    let unicode = if c <= '\u{7f}' {
        false
    } else {
        is_alphanumeric(c)
    };
    alphanumeric_given(c, unicode)
}

/// The keyword `true`.
pub open spec fn true_word() -> Seq<char> {
    seq!['t', 'r', 'u', 'e']
}

/// The keyword `false`.
pub open spec fn false_word() -> Seq<char> {
    seq!['f', 'a', 'l', 's', 'e']
}

/// A letter, a digit or an underscore: a character that continues a
/// word.
pub open spec fn is_word_char(c: char) -> bool {
    is_alphanumeric_char(c) || c == '_'
}

/// A word ends at position `end` of `text`: the text ends there, or the
/// character there does not continue a word.
pub open spec fn word_ends(text: Seq<char>, end: int) -> bool {
    end == text.len() || !is_word_char(text[end])
}

/// `word` stands at position `at` of `text` as a whole word: its characters
/// stand there, and behind them the word ends.
pub open spec fn word_at(text: Seq<char>, at: int, word: Seq<char>) -> bool {
    crate::text_bytes::starts_at(text, at, word) && word_ends(text, at + word.len())
}

/// The keyword `true` stands at position `at` of `text` as a whole word.
pub open spec fn is_true_at(text: Seq<char>, at: int) -> bool {
    word_at(text, at, true_word())
}

/// The keyword `false` stands at position `at` of `text` as a whole word.
pub open spec fn is_false_at(text: Seq<char>, at: int) -> bool {
    word_at(text, at, false_word())
}

/// `word` stands as a whole word in `text` at the byte offset `offset`:
/// the offset is that of a character position, and the word stands there.
pub open spec fn word_at_offset(text: Seq<char>, offset: int, word: Seq<char>) -> bool {
    exists|at: int|
        0 <= at <= text.len() && crate::text_bytes::utf8_len(text.take(at)) == offset
            && #[trigger] word_at(text, at, word)
}

/// What the byte of an ASCII character tells of the character.
proof fn lemma_ascii_word_char(c: char, b: u8)
    requires
        crate::text_bytes::is_ascii_char(c),
        b == c as u8,
    ensures
        is_word_char(c) <==> (0x61 <= b && b <= 0x7a) || (0x41 <= b && b <= 0x5a) || (0x30 <= b
            && b <= 0x39) || b == 0x5f,
{
}

/// A position has one offset, so a word stands at the offset of a position
/// exactly when it stands at the position.
pub proof fn lemma_word_at_offset(text: Seq<char>, at: int, word: Seq<char>)
    requires
        0 <= at <= text.len(),
    ensures
        word_at(text, at, word) <==> word_at_offset(
            text,
            crate::text_bytes::utf8_len(text.take(at)) as int,
            word,
        ),
{
    let offset = crate::text_bytes::utf8_len(text.take(at)) as int;
    if word_at_offset(text, offset, word) {
        let other = choose|other: int|
            0 <= other <= text.len() && crate::text_bytes::utf8_len(text.take(other)) == offset
                && #[trigger] word_at(text, other, word);
        if other < at {
            crate::text_bytes::lemma_offsets_grow(text, other, at);
        }
        if at < other {
            crate::text_bytes::lemma_offsets_grow(text, at, other);
        }
    }
}

/// Tells whether the ASCII word `chars`, whose bytes are `word`, stands as
/// a whole word at the character position `at` of `s`, which is at the byte
/// offset `offset`.
fn word_here(
    s: &str,
    bytes: &[u8],
    at: usize,
    offset: usize,
    word: &[u8],
    Ghost(chars): Ghost<Seq<char>>,
) -> (r: bool)
    requires
        bytes@ == crate::text_bytes::bytes_of(s@),
        at <= s@.len(),
        offset == crate::text_bytes::utf8_len(s@.take(at as int)),
        word@ == crate::text_bytes::bytes_of(chars),
        crate::text_bytes::ascii_chars(chars, chars.len() as int),
    ensures
        r == word_at(s@, at as int, chars),
{
    let len = bytes.len();
    let n = word.len();
    proof {
        crate::text_bytes::lemma_starts_at_bytes(s@, at as int, chars);
        crate::text_bytes::lemma_len_le_utf8_len(s@);
    }
    if offset > len || len - offset < n {
        return false;
    }
    let mut k: usize = 0;
    while k < n
        invariant
            k <= n,
            n == word@.len(),
            len == bytes@.len(),
            offset + n <= len,
            forall|j: int| 0 <= j < k ==> bytes@[offset + j] == word@[j],
            crate::text_bytes::starts_at(s@, at as int, chars)
                <==> crate::text_bytes::bytes_start_at(bytes@, offset as int, word@),
        decreases n - k,
    {
        if bytes[offset + k] != word[k] {
            assert(bytes@.subrange(offset as int, offset + n)[k as int] != word@[k as int]);
            return false;
        }
        k = k + 1;
    }
    assert(bytes@.subrange(offset as int, offset + n) =~= word@);
    if len - offset == n {
        return true;
    }
    let next = bytes[offset + n];
    if next < 0x80 {
        proof {
            lemma_ascii_word_char(s@[at + n], next);
        }
        !((0x61 <= next && next <= 0x7a) || (0x41 <= next && next <= 0x5a) || (0x30 <= next
            && next <= 0x39) || next == 0x5f)
    } else {
        let c = s.get_char(at + n);
        !continues_word_given(c, is_alphanumeric(c))
    }
}

/// Tells whether the ASCII word `chars`, whose bytes are `word`, stands as
/// a whole word in `s` at the byte offset `offset`.
fn word_at_byte_offset(s: &str, offset: usize, word: &[u8], Ghost(chars): Ghost<Seq<char>>) -> (r:
    bool)
    requires
        word@ == crate::text_bytes::bytes_of(chars),
        crate::text_bytes::ascii_chars(chars, chars.len() as int),
    ensures
        r == word_at_offset(s@, offset as int, chars),
{
    let bytes = s.as_bytes();
    let byte_len = bytes.len();
    let mut position: usize = 0;
    let mut at: usize = 0;
    proof {
        assert(s@.take(0) =~= Seq::<char>::empty());
        crate::text_bytes::lemma_len_le_utf8_len(s@);
    }
    for ch in it: s.chars()
        invariant
            it.seq() == s@,
            at == it.index(),
            bytes@ == crate::text_bytes::bytes_of(s@),
            bytes@.len() == byte_len,
            s@.len() <= byte_len,
            position <= byte_len,
            position == crate::text_bytes::utf8_len(s@.take(at as int)),
            forall|before: int|
                0 <= before < at ==> crate::text_bytes::utf8_len(#[trigger] s@.take(before))
                    < offset,
            word@ == crate::text_bytes::bytes_of(chars),
            crate::text_bytes::ascii_chars(chars, chars.len() as int),
    {
        if position >= offset {
            let r = position == offset && word_here(s, bytes, at, offset, word, Ghost(chars));
            proof {
                lemma_no_other_offset(s@, at as int, offset as int, chars);
            }
            return r;
        }
        proof {
            crate::text_bytes::lemma_utf8_len_next(s@, at as int);
        }
        position = position + char_len_utf8(ch);
        at = at + 1;
    }
    let r = position == offset && word_here(s, bytes, at, offset, word, Ghost(chars));
    proof {
        assert(s@.take(at as int) =~= s@);
        if position < offset {
            assert forall|other: int| 0 <= other <= s@.len() implies crate::text_bytes::utf8_len(
                #[trigger] s@.take(other),
            ) != offset by {
                crate::text_bytes::lemma_offsets_grow(s@, other, at as int);
            }
        } else {
            lemma_no_other_offset(s@, at as int, offset as int, chars);
        }
    }
    r
}

/// Where every earlier position has a smaller offset and the position `at`
/// has the offset `offset` or a greater one, a word stands at `offset`
/// exactly when `at` has that offset and the word stands at `at`.
proof fn lemma_no_other_offset(text: Seq<char>, at: int, offset: int, word: Seq<char>)
    requires
        0 <= at <= text.len(),
        crate::text_bytes::utf8_len(text.take(at)) >= offset,
        forall|before: int|
            0 <= before < at ==> crate::text_bytes::utf8_len(#[trigger] text.take(before))
                < offset,
    ensures
        word_at_offset(text, offset, word) <==> crate::text_bytes::utf8_len(text.take(at))
            == offset && word_at(text, at, word),
{
    if word_at_offset(text, offset, word) {
        let other = choose|other: int|
            0 <= other <= text.len() && crate::text_bytes::utf8_len(text.take(other)) == offset
                && #[trigger] word_at(text, other, word);
        if at < other {
            crate::text_bytes::lemma_offsets_grow(text, at, other);
        }
        if other < at {
            assert(crate::text_bytes::utf8_len(text.take(other)) < offset);
        }
    }
}

fn true_here(s: &str, bytes: &[u8], at: usize, offset: usize) -> (r: bool)
    requires
        bytes@ == crate::text_bytes::bytes_of(s@),
        at <= s@.len(),
        offset == crate::text_bytes::utf8_len(s@.take(at as int)),
    ensures
        r == is_true_at(s@, at as int),
{
    proof {
        reveal_strlit("true");
        assert("true"@ =~= true_word());
    }
    word_here(s, bytes, at, offset, "true".as_bytes(), Ghost(true_word()))
}

fn false_here(s: &str, bytes: &[u8], at: usize, offset: usize) -> (r: bool)
    requires
        bytes@ == crate::text_bytes::bytes_of(s@),
        at <= s@.len(),
        offset == crate::text_bytes::utf8_len(s@.take(at as int)),
    ensures
        r == is_false_at(s@, at as int),
{
    proof {
        reveal_strlit("false");
        assert("false"@ =~= false_word());
    }
    word_here(s, bytes, at, offset, "false".as_bytes(), Ghost(false_word()))
}

/// Tells whether the keyword `true` stands in `s` at the byte offset
/// `offset` as a whole word: it is followed by the end of `s` or by a
/// character that is neither a letter or digit nor an underscore. At an
/// offset inside a character or behind the end of `s` it does not stand.
pub fn match_true_ident(s: &str, offset: usize) -> (r: bool)
    ensures
        r == word_at_offset(s@, offset as int, true_word()),
{
    proof {
        reveal_strlit("true");
        assert("true"@ =~= true_word());
    }
    word_at_byte_offset(s, offset, "true".as_bytes(), Ghost(true_word()))
}

/// Tells whether the keyword `false` stands in `s` at the byte offset
/// `offset` as a whole word: it is followed by the end of `s` or by a
/// character that is neither a letter or digit nor an underscore. At an
/// offset inside a character or behind the end of `s` it does not stand.
pub fn match_false_ident(s: &str, offset: usize) -> (r: bool)
    ensures
        r == word_at_offset(s@, offset as int, false_word()),
{
    proof {
        reveal_strlit("false");
        assert("false"@ =~= false_word());
    }
    word_at_byte_offset(s, offset, "false".as_bytes(), Ghost(false_word()))
}

/// The mode of the scanner after the character at position `at` of `text`,
/// when it stood in `mode` before it.
pub open spec fn next_mode(mode: ColoredWriterMode, text: Seq<char>, at: int) -> ColoredWriterMode {
    let ch = text[at];
    match mode {
        ColoredWriterMode::Default | ColoredWriterMode::QuotedEnd | ColoredWriterMode::Brace => {
            if is_number_char(ch) {
                ColoredWriterMode::Number
            } else if is_brace_char(ch) {
                ColoredWriterMode::Brace
            } else if ch == '_' {
                ColoredWriterMode::Ident
            } else if ch == '"' {
                ColoredWriterMode::DoubleQuoted
            } else if ch == '\'' {
                ColoredWriterMode::SingleQuoted
            } else if 'A' <= ch && ch <= 'Z' {
                ColoredWriterMode::Item
            } else if is_alphanumeric_char(ch) {
                if is_true_at(text, at) || is_false_at(text, at) {
                    ColoredWriterMode::Boolean
                } else {
                    ColoredWriterMode::Ident
                }
            } else {
                ColoredWriterMode::Default
            }
        },
        ColoredWriterMode::Ident | ColoredWriterMode::Item => {
            if is_brace_char(ch) {
                ColoredWriterMode::Brace
            } else if ch == '#' || ch == '_' {
                mode
            } else if ch == '"' {
                ColoredWriterMode::DoubleQuoted
            } else if ch == '\'' {
                ColoredWriterMode::SingleQuoted
            } else if is_alphanumeric_char(ch) {
                mode
            } else {
                ColoredWriterMode::Default
            }
        },
        ColoredWriterMode::Boolean => {
            if is_number_char(ch) {
                ColoredWriterMode::Number
            } else if is_brace_char(ch) {
                ColoredWriterMode::Brace
            } else if ch == '#' || ch == '_' {
                ColoredWriterMode::Ident
            } else if ch == '"' {
                ColoredWriterMode::DoubleQuoted
            } else if ch == '\'' {
                ColoredWriterMode::SingleQuoted
            } else if is_alphanumeric_char(ch) {
                ColoredWriterMode::Boolean
            } else {
                ColoredWriterMode::Default
            }
        },
        ColoredWriterMode::Number => {
            if is_number_char(ch) || ch == '_' {
                ColoredWriterMode::Number
            } else if is_brace_char(ch) {
                ColoredWriterMode::Brace
            } else if ch == '"' {
                ColoredWriterMode::DoubleQuoted
            } else if ch == '\'' {
                ColoredWriterMode::SingleQuoted
            } else if is_alphanumeric_char(ch) {
                ColoredWriterMode::Ident
            } else {
                ColoredWriterMode::Default
            }
        },
        ColoredWriterMode::DoubleQuoted | ColoredWriterMode::DoubleQuotedEscaped => {
            if ch == '"' {
                ColoredWriterMode::QuotedEnd
            } else if ch == '\\' {
                ColoredWriterMode::DoubleQuotedEscapeChar
            } else {
                ColoredWriterMode::DoubleQuoted
            }
        },
        ColoredWriterMode::DoubleQuotedEscapeChar => ColoredWriterMode::DoubleQuotedEscaped,
        ColoredWriterMode::SingleQuoted | ColoredWriterMode::SingleQuotedEscaped => {
            if ch == '\'' {
                ColoredWriterMode::QuotedEnd
            } else if ch == '\\' {
                ColoredWriterMode::SingleQuotedEscapeChar
            } else {
                ColoredWriterMode::SingleQuoted
            }
        },
        ColoredWriterMode::SingleQuotedEscapeChar => ColoredWriterMode::SingleQuotedEscaped,
    }
}

/// The mode of the scanner after the last character of `text`, when it
/// stood in `mode` before the character at position `from`.
pub open spec fn mode_after(
    mode: ColoredWriterMode,
    text: Seq<char>,
    from: int,
) -> ColoredWriterMode
    decreases text.len() - from,
{
    if from < 0 || from >= text.len() {
        mode
    } else {
        mode_after(next_mode(mode, text, from), text, from + 1)
    }
}

/// What is written between two characters: the styling sequence of the
/// second one's style if it differs from the first one's, else nothing.
pub open spec fn style_switch(
    scheme: AnsiColorScheme,
    from: ColoredWriterMode,
    to: ColoredWriterMode,
) -> Seq<char> {
    if style_of(from) != style_of(to) {
        ansi_style_of(style_of(to), scheme)
    } else {
        Seq::<char>::empty()
    }
}

/// The colourised form of `text` from position `from` on, for a scanner that
/// stood in `mode` before that position: each character, with the styling
/// sequence of its style in front of it where the style changes.
pub open spec fn colorize_from(
    scheme: AnsiColorScheme,
    mode: ColoredWriterMode,
    text: Seq<char>,
    from: int,
) -> Seq<char>
    decreases text.len() - from,
{
    if from < 0 || from >= text.len() {
        Seq::<char>::empty()
    } else {
        let next = next_mode(mode, text, from);
        style_switch(scheme, mode, next) + seq![text[from]] + colorize_from(
            scheme,
            next,
            text,
            from + 1,
        )
    }
}

/// What ends a colourised value: the default sequence, unless the last
/// character was in the default style.
pub open spec fn reset_text(scheme: AnsiColorScheme, mode: ColoredWriterMode) -> Seq<char> {
    if style_of(mode) != ColoredWriterModeStyle::Default {
        scheme.default@
    } else {
        Seq::<char>::empty()
    }
}

/// The colourised form of the whole value `text`, reset at its end.
pub open spec fn colorized(scheme: AnsiColorScheme, text: Seq<char>) -> Seq<char> {
    colorize_from(scheme, ColoredWriterMode::Default, text, 0) + reset_text(
        scheme,
        mode_after(ColoredWriterMode::Default, text, 0),
    )
}

fn step(
    mode: ColoredWriterMode,
    s: &str,
    bytes: &[u8],
    at: usize,
    offset: usize,
    ch: char,
) -> (next: ColoredWriterMode)
    requires
        bytes@ == crate::text_bytes::bytes_of(s@),
        at < s@.len(),
        ch == s@[at as int],
        offset == crate::text_bytes::utf8_len(s@.take(at as int)),
    ensures
        next == next_mode(mode, s@, at as int),
{
    match mode {
        ColoredWriterMode::Default | ColoredWriterMode::QuotedEnd | ColoredWriterMode::Brace => {
            match ch {
                '0'..='9' | '+' | '-' | '.' => ColoredWriterMode::Number,
                '(' | ')' | '[' | ']' | '{' | '}' => ColoredWriterMode::Brace,
                '_' => ColoredWriterMode::Ident,
                '"' => ColoredWriterMode::DoubleQuoted,
                '\'' => ColoredWriterMode::SingleQuoted,
                'A'..='Z' => ColoredWriterMode::Item,
                _ => {
                    if alphanumeric(ch) {
                        if true_here(s, bytes, at, offset) || false_here(s, bytes, at, offset) {
                            ColoredWriterMode::Boolean
                        } else {
                            ColoredWriterMode::Ident
                        }
                    } else {
                        ColoredWriterMode::Default
                    }
                },
            }
        },
        ColoredWriterMode::Ident | ColoredWriterMode::Item => {
            match ch {
                '(' | ')' | '[' | ']' | '{' | '}' => ColoredWriterMode::Brace,
                '#' | '_' => mode,
                '"' => ColoredWriterMode::DoubleQuoted,
                '\'' => ColoredWriterMode::SingleQuoted,
                _ => {
                    if alphanumeric(ch) {
                        mode
                    } else {
                        ColoredWriterMode::Default
                    }
                },
            }
        },
        ColoredWriterMode::Boolean => {
            match ch {
                '0'..='9' | '+' | '-' | '.' => ColoredWriterMode::Number,
                '(' | ')' | '[' | ']' | '{' | '}' => ColoredWriterMode::Brace,
                '#' | '_' => ColoredWriterMode::Ident,
                '"' => ColoredWriterMode::DoubleQuoted,
                '\'' => ColoredWriterMode::SingleQuoted,
                _ => {
                    if alphanumeric(ch) {
                        ColoredWriterMode::Boolean
                    } else {
                        ColoredWriterMode::Default
                    }
                },
            }
        },
        ColoredWriterMode::Number => {
            match ch {
                '0'..='9' | '+' | '-' | '.' | '_' => ColoredWriterMode::Number,
                '(' | ')' | '[' | ']' | '{' | '}' => ColoredWriterMode::Brace,
                '"' => ColoredWriterMode::DoubleQuoted,
                '\'' => ColoredWriterMode::SingleQuoted,
                _ => {
                    if alphanumeric(ch) {
                        ColoredWriterMode::Ident
                    } else {
                        ColoredWriterMode::Default
                    }
                },
            }
        },
        ColoredWriterMode::DoubleQuoted | ColoredWriterMode::DoubleQuotedEscaped => {
            match ch {
                '"' => ColoredWriterMode::QuotedEnd,
                '\\' => ColoredWriterMode::DoubleQuotedEscapeChar,
                _ => ColoredWriterMode::DoubleQuoted,
            }
        },
        ColoredWriterMode::DoubleQuotedEscapeChar => ColoredWriterMode::DoubleQuotedEscaped,
        ColoredWriterMode::SingleQuoted | ColoredWriterMode::SingleQuotedEscaped => {
            match ch {
                '\'' => ColoredWriterMode::QuotedEnd,
                '\\' => ColoredWriterMode::SingleQuotedEscapeChar,
                _ => ColoredWriterMode::SingleQuoted,
            }
        },
        ColoredWriterMode::SingleQuotedEscapeChar => ColoredWriterMode::SingleQuotedEscaped,
    }
}

/// The state of a colourising pass over the pieces of one value: the mode
/// that the last character left, and the scheme in use.
#[derive(Copy, Clone, Debug)]
pub struct ColoredWriter {
    /// The mode after the last character that was written.
    pub mode: ColoredWriterMode,
    /// The scheme that styling sequences are taken from.
    pub color_scheme: AnsiColorScheme,
}

impl ColoredWriter {
    /// A pass that has not seen a character yet.
    pub fn new(color_scheme: AnsiColorScheme) -> (writer: Self)
        ensures
            writer.mode == ColoredWriterMode::Default,
            writer.color_scheme == color_scheme,
    {
        ColoredWriter { mode: ColoredWriterMode::Default, color_scheme }
    }

    /// Writes the piece `s` of the value to `w`, colourised: every character
    /// of `s`, with the styling sequence of its style in front of it wherever
    /// the style differs from that of the character before. Stops at the
    /// first write that `w` refuses.
    pub fn write_str<W: TextSink>(&mut self, w: &mut W, s: &str) -> (r: Result<(), WriteError>)
        ensures
            final(self).color_scheme == old(self).color_scheme,
            crate::writer::wrote(
                *old(w),
                *final(w),
                r,
                colorize_from(old(self).color_scheme, old(self).mode, s@, 0),
            ),
            r is Ok ==> final(self).mode == mode_after(old(self).mode, s@, 0),
    {
        let bytes = s.as_bytes();
        let byte_len = bytes.len();
        let scheme = self.color_scheme;
        let ghost before = *w;
        let ghost start = self.mode;
        let ghost total = colorize_from(scheme, start, s@, 0);
        let ghost mut done = Seq::<char>::empty();
        let mut offset: usize = 0;
        let mut at: usize = 0;
        proof {
            crate::writer::lemma_progress_start(before);
            assert(done + total =~= total);
            assert(s@.take(0) =~= Seq::<char>::empty());
            crate::text_bytes::lemma_len_le_utf8_len(s@);
        }
        for ch in it: s.chars()
            invariant
                it.seq() == s@,
                at == it.index(),
                s@.len() <= byte_len,
                bytes@ == crate::text_bytes::bytes_of(s@),
                bytes@.len() == byte_len,
                offset <= byte_len,
                offset == crate::text_bytes::utf8_len(s@.take(it.index() as int)),
                self.color_scheme == scheme,
                scheme == old(self).color_scheme,
                start == old(self).mode,
                before == *old(w),
                total == colorize_from(scheme, start, s@, 0),
                crate::writer::progress(before, *w, done),
                done + colorize_from(scheme, self.mode, s@, it.index() as int) == total,
                mode_after(self.mode, s@, it.index() as int) == mode_after(start, s@, 0),
        {
            let ghost from = self.mode;
            let prev_style = self.mode.style();
            self.mode = step(self.mode, s, bytes, at, offset, ch);
            let style = self.mode.style();
            let ghost rest = colorize_from(scheme, self.mode, s@, at + 1);
            let ghost switch = style_switch(scheme, from, self.mode);
            proof {
                assert(done + (switch + seq![ch] + rest) =~= done + switch + (seq![ch] + rest));
                crate::text_bytes::lemma_utf8_len_next(s@, at as int);
            }
            if prev_style != style {
                let r = write_piece(
                    w,
                    style.ansi_style(&scheme),
                    Ghost(before),
                    Ghost(done),
                    Ghost(seq![ch] + rest),
                );
                if r.is_err() {
                    return r;
                }
            } else {
                proof {
                    assert(done + switch =~= done);
                }
            }
            proof {
                done = done + switch;
                assert(done + (seq![ch] + rest) =~= done + seq![ch] + rest);
            }
            let r = write_piece_char(w, ch, Ghost(before), Ghost(done), Ghost(rest));
            if r.is_err() {
                return r;
            }
            proof {
                done = done + seq![ch];
            }
            offset = offset + char_len_utf8(ch);
            at = at + 1;
        }
        proof {
            assert(done + Seq::<char>::empty() =~= done);
        }
        Ok(())
    }

    /// Ends the value: writes the default sequence to `w` unless the last
    /// character was in the default style, and starts over in the default
    /// mode.
    pub fn reset<W: TextSink>(&mut self, w: &mut W) -> (r: Result<(), WriteError>)
        ensures
            final(self).color_scheme == old(self).color_scheme,
            crate::writer::wrote(
                *old(w),
                *final(w),
                r,
                reset_text(old(self).color_scheme, old(self).mode),
            ),
            r is Ok ==> final(self).mode == ColoredWriterMode::Default,
            r is Err ==> final(self).mode == old(self).mode,
    {
        let ghost before = *w;
        proof {
            crate::writer::lemma_progress_start(before);
        }
        if self.mode.style() != ColoredWriterModeStyle::Default {
            let r = w.write_str(self.color_scheme.default);
            if r.is_ok() {
                self.mode = ColoredWriterMode::Default;
            }
            r
        } else {
            self.mode = ColoredWriterMode::Default;
            Ok(())
        }
    }
}

/// With a blank scheme the colourised form of a text is the text itself.
pub proof fn lemma_colorize_blank(
    scheme: AnsiColorScheme,
    mode: ColoredWriterMode,
    text: Seq<char>,
    from: int,
)
    requires
        scheme.is_blank(),
        0 <= from <= text.len(),
    ensures
        colorize_from(scheme, mode, text, from) == text.subrange(from, text.len() as int),
    decreases text.len() - from,
{
    if from < text.len() {
        let next = next_mode(mode, text, from);
        lemma_colorize_blank(scheme, next, text, from + 1);
        assert(style_switch(scheme, mode, next) =~= Seq::<char>::empty());
        assert(style_switch(scheme, mode, next) + seq![text[from]] + text.subrange(
            from + 1,
            text.len() as int,
        ) =~= text.subrange(from, text.len() as int));
    } else {
        assert(text.subrange(from, text.len() as int) =~= Seq::<char>::empty());
    }
}

/// With a blank scheme a colourised value is the plain value: colour only
/// adds to a rendering.
pub proof fn lemma_colorized_blank(scheme: AnsiColorScheme, text: Seq<char>)
    requires
        scheme.is_blank(),
    ensures
        colorized(scheme, text) == text,
{
    lemma_colorize_blank(scheme, ColoredWriterMode::Default, text, 0);
    let end = mode_after(ColoredWriterMode::Default, text, 0);
    assert(reset_text(scheme, end) =~= Seq::<char>::empty());
    assert(text.subrange(0, text.len() as int) + Seq::<char>::empty() =~= text);
}

/// The modes in which the scanner stands between tokens: at the start,
/// behind a closing quote and behind a bracket.
pub open spec fn is_between_tokens(mode: ColoredWriterMode) -> bool {
    mode == ColoredWriterMode::Default || mode == ColoredWriterMode::QuotedEnd || mode
        == ColoredWriterMode::Brace
}

/// The modes inside quoted text in which the next character is read for
/// what it is: not right behind a backslash.
pub open spec fn is_in_quotes(mode: ColoredWriterMode) -> bool {
    mode == ColoredWriterMode::DoubleQuoted || mode == ColoredWriterMode::DoubleQuotedEscaped
        || mode == ColoredWriterMode::SingleQuoted || mode
        == ColoredWriterMode::SingleQuotedEscaped
}

/// Between tokens, a character starts a truth value exactly when `true` or
/// `false` stands there as a whole word: followed by the end of the text or
/// by a character that does not continue a word.
pub proof fn lemma_boolean_needs_word_end(mode: ColoredWriterMode, text: Seq<char>, at: int)
    requires
        is_between_tokens(mode),
        0 <= at < text.len(),
    ensures
        next_mode(mode, text, at) == ColoredWriterMode::Boolean <==> is_true_at(text, at)
            || is_false_at(text, at),
{
}

/// Inside quoted text, the character behind a backslash is styled as
/// escaped whatever it is, a quote included, and the quoted text goes on
/// behind it: only a later quote ends it.
pub proof fn lemma_escaped_after_backslash(mode: ColoredWriterMode, text: Seq<char>, at: int)
    requires
        is_in_quotes(mode),
        0 <= at,
        at + 1 < text.len(),
        text[at] == '\\',
    ensures
        style_of(next_mode(mode, text, at)) == ColoredWriterModeStyle::Escaped,
        style_of(next_mode(next_mode(mode, text, at), text, at + 1))
            == ColoredWriterModeStyle::Escaped,
        is_in_quotes(next_mode(next_mode(mode, text, at), text, at + 1)),
{
}

} // verus!
