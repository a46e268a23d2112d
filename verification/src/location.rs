//! Source locations and the text of a printed context.

use vstd::prelude::*;
use crate::color_scheme::AnsiColorScheme;
use crate::colored::DebugAnsiColored;
use crate::debug_text::fmt_decimal;
use crate::writer::{write_piece, FlushSink, TextSink, WriteError};

verus! {

/// A place in the source: where a context guard was created.
#[derive(Copy, Clone, Eq, PartialEq, Ord, PartialOrd, Hash, Debug)]
pub struct SourceLocation {
    /// The name of the source file.
    pub file: &'static str,
    /// The line, counted from one.
    pub line: u32,
    /// The column, counted from one.
    pub column: u32,
}

impl SourceLocation {
    /// The location in `file` at `line` and `column`.
    pub fn new(file: &'static str, line: u32, column: u32) -> (location: Self)
        ensures
            location.file == file,
            location.line == line,
            location.column == column,
    {
        Self { file, line, column }
    }
}

/// A location as it is printed: file, line and column, separated by
/// colons.
pub open spec fn location_text(location: SourceLocation) -> Seq<char> {
    location.file@ + seq![':'] + crate::debug_text::decimal(location.line as nat) + seq![':']
        + crate::debug_text::decimal(location.column as nat)
}

/// What stands between the context and its location: a line break and the
/// indented word `at`.
pub open spec fn at_text() -> Seq<char> {
    seq!['\n', ' ', ' ', ' ', ' ', 'a', 't', ' ']
}

/// A printed context without colours: the rendering `data` of the context,
/// then on a line of its own the location, and a line break.
pub open spec fn context_text(data: Seq<char>, location: SourceLocation) -> Seq<char> {
    data + at_text() + location_text(location) + seq!['\n']
}

/// A printed context in colours: the colourised rendering `data` of the
/// context, then on a line of its own the location between the location
/// sequence and the default sequence, and a line break.
pub open spec fn colored_context_text(
    scheme: AnsiColorScheme,
    data: Seq<char>,
    location: SourceLocation,
) -> Seq<char> {
    data + at_text() + scheme.location@ + location_text(location) + scheme.default@ + seq!['\n']
}

/// With a blank scheme a printed context in colours is the one without.
pub proof fn lemma_blank_context_is_plain(
    scheme: AnsiColorScheme,
    data: Seq<char>,
    location: SourceLocation,
)
    requires
        scheme.is_blank(),
    ensures
        colored_context_text(scheme, data, location) == context_text(data, location),
{
    assert(scheme.location@ =~= Seq::<char>::empty());
    assert(scheme.default@ =~= Seq::<char>::empty());
    assert(colored_context_text(scheme, data, location) =~= context_text(data, location));
}

/// Writes `location` as the next piece of a longer text, of which `head`
/// has been taken since `before` and `tail` is still to come.
fn fmt_location<W: TextSink>(
    location: &SourceLocation,
    w: &mut W,
    Ghost(before): Ghost<W>,
    Ghost(head): Ghost<Seq<char>>,
    Ghost(tail): Ghost<Seq<char>>,
) -> (r: Result<(), WriteError>)
    requires
        crate::writer::progress(before, *old(w), head),
    ensures
        r is Ok ==> crate::writer::progress(before, *final(w), head + location_text(*location)),
        r is Err ==> crate::writer::wrote(
            before,
            *final(w),
            r,
            head + location_text(*location) + tail,
        ),
{
    let ghost colon = seq![':'];
    let ghost line = crate::debug_text::decimal(location.line as nat);
    let ghost column = crate::debug_text::decimal(location.column as nat);
    let ghost total = head + location_text(*location) + tail;
    let ghost h1 = head + location.file@;
    let ghost h2 = h1 + colon;
    let ghost h3 = h2 + line;
    let ghost h4 = h3 + colon;
    proof {
        reveal_strlit(":");
        assert(":"@ =~= colon);
        assert(total =~= head + location.file@ + (colon + line + colon + column + tail));
        assert(total =~= h1 + colon + (line + colon + column + tail));
        assert(total =~= h2 + line + (colon + column + tail));
        assert(total =~= h3 + colon + (column + tail));
        assert(total =~= h4 + column + tail);
        assert(head + location_text(*location) =~= h4 + column);
    }
    write_piece(
        w,
        location.file,
        Ghost(before),
        Ghost(head),
        Ghost(colon + line + colon + column + tail),
    )?;
    write_piece(w, ":", Ghost(before), Ghost(h1), Ghost(line + colon + column + tail))?;
    let ghost mid = *w;
    let r = fmt_decimal(location.line as u128, w);
    proof {
        crate::writer::lemma_progress_step(before, mid, *w, r, h2, line, colon + column + tail);
    }
    if r.is_err() {
        return r;
    }
    write_piece(w, ":", Ghost(before), Ghost(h3), Ghost(column + tail))?;
    let ghost mid = *w;
    let r = fmt_decimal(location.column as u128, w);
    proof {
        crate::writer::lemma_progress_step(before, mid, *w, r, h4, column, tail);
    }
    r
}

/// Writes the context `data` and the place `location` where its guard was
/// created to `w`, without colours. Stops at the first write that `w`
/// refuses.
pub fn fmt_context<T: DebugAnsiColored, W: TextSink>(
    data: &T,
    location: &SourceLocation,
    w: &mut W,
) -> (r: Result<(), WriteError>)
    ensures
        crate::writer::wrote(*old(w), *final(w), r, context_text(data.debug_text(), *location)),
{
    let ghost before = *w;
    let ghost text = data.debug_text();
    let ghost place = location_text(*location);
    let ghost at = at_text();
    let ghost end = seq!['\n'];
    let ghost total = context_text(text, *location);
    proof {
        crate::writer::lemma_progress_start(before);
        reveal_strlit("\n    at ");
        reveal_strlit("\n");
        assert("\n    at "@ =~= at);
        assert("\n"@ =~= end);
        assert(total =~= Seq::<char>::empty() + text + (at + place + end));
        assert(total =~= text + at + (place + end));
        assert(total =~= text + at + place + end);
        assert(total =~= text + at + place + end + Seq::<char>::empty());
        assert(Seq::<char>::empty() + text =~= text);
    }
    let r = data.fmt(w);
    proof {
        crate::writer::lemma_progress_step(
            before,
            before,
            *w,
            r,
            Seq::<char>::empty(),
            text,
            at + place + end,
        );
    }
    if r.is_err() {
        return r;
    }
    write_piece(w, "\n    at ", Ghost(before), Ghost(text), Ghost(place + end))?;
    fmt_location(location, w, Ghost(before), Ghost(text + at), Ghost(end))?;
    write_piece(w, "\n", Ghost(before), Ghost(text + at + place), Ghost(Seq::empty()))
}

/// Writes the context `data` and the place `location` where its guard was
/// created to `w`, in the colours of `color_scheme`. Stops at the first write
/// that `w` refuses.
pub fn fmt_context_colored<T: DebugAnsiColored, W: TextSink>(
    data: &T,
    location: &SourceLocation,
    color_scheme: &AnsiColorScheme,
    w: &mut W,
) -> (r: Result<(), WriteError>)
    ensures
        crate::writer::wrote(
            *old(w),
            *final(w),
            r,
            colored_context_text(*color_scheme, data.colored_text(*color_scheme), *location),
        ),
{
    let ghost before = *w;
    let ghost scheme = *color_scheme;
    let ghost text = data.colored_text(scheme);
    let ghost place = location_text(*location);
    let ghost at = at_text();
    let ghost end = seq!['\n'];
    let ghost total = colored_context_text(scheme, text, *location);
    let ghost h1 = text + at;
    let ghost h2 = h1 + scheme.location@;
    let ghost h3 = h2 + place;
    let ghost h4 = h3 + scheme.default@;
    proof {
        crate::writer::lemma_progress_start(before);
        reveal_strlit("\n    at ");
        reveal_strlit("\n");
        assert("\n    at "@ =~= at);
        assert("\n"@ =~= end);
        assert(total =~= Seq::<char>::empty() + text + (at + scheme.location@ + place
            + scheme.default@ + end));
        assert(total =~= text + at + (scheme.location@ + place + scheme.default@ + end));
        assert(total =~= h1 + scheme.location@ + (place + scheme.default@ + end));
        assert(total =~= h2 + place + (scheme.default@ + end));
        assert(total =~= h3 + scheme.default@ + end);
        assert(total =~= h4 + end + Seq::<char>::empty());
        assert(total =~= h4 + end);
        assert(Seq::<char>::empty() + text =~= text);
    }
    let r = data.fmt_colored(w, color_scheme);
    proof {
        crate::writer::lemma_progress_step(
            before,
            before,
            *w,
            r,
            Seq::<char>::empty(),
            text,
            at + scheme.location@ + place + scheme.default@ + end,
        );
    }
    if r.is_err() {
        return r;
    }
    write_piece(
        w,
        "\n    at ",
        Ghost(before),
        Ghost(text),
        Ghost(scheme.location@ + place + scheme.default@ + end),
    )?;
    write_piece(
        w,
        color_scheme.location,
        Ghost(before),
        Ghost(h1),
        Ghost(place + scheme.default@ + end),
    )?;
    fmt_location(location, w, Ghost(before), Ghost(h2), Ghost(scheme.default@ + end))?;
    write_piece(w, color_scheme.default, Ghost(before), Ghost(h3), Ghost(end))?;
    write_piece(w, "\n", Ghost(before), Ghost(h4), Ghost(Seq::empty()))
}

/// The text that a guard prints: in the colours of its scheme if it has
/// one, else without colours.
pub open spec fn message<T: DebugAnsiColored>(
    data: T,
    color_scheme: Option<AnsiColorScheme>,
    location: SourceLocation,
) -> Seq<char> {
    match color_scheme {
        Some(scheme) => colored_context_text(scheme, data.colored_text(scheme), location),
        None => context_text(data.debug_text(), location),
    }
}

/// What printing `text` leaves behind, with the failure swallowed: a sink
/// that accepted `text` took all of it, and any other sink holds a prefix
/// of it.
pub open spec fn printed<W: TextSink>(before: W, after: W, text: Seq<char>) -> bool {
    if before.accepts(text) {
        crate::writer::progress(before, after, text)
    } else {
        crate::writer::partial(before, after, text)
    }
}

/// What printing `text` and then flushing leaves behind: of the text what
/// printing leaves, and on record one more flush, made when the last of the
/// text had been taken.
pub open spec fn printed_flushed<W: TextSink>(before: W, after: W, text: Seq<char>) -> bool {
    &&& if before.accepts(text) {
        crate::writer::took(before, after, text)
    } else {
        crate::writer::took_part(before, after, text)
    }
    &&& after.flush_marks() == before.flush_marks().push(after.written().len())
}

/// A flush after printing is a flush that followed the last write.
pub proof fn lemma_printed_flushed<W: TextSink>(before: W, mid: W, after: W, text: Seq<char>)
    requires
        printed(before, mid, text),
        crate::writer::same_sink(mid, after),
        after.flush_marks() == mid.flush_marks().push(mid.written().len()),
    ensures
        printed_flushed(before, after, text),
{
}

/// Prints the context `data` with its `location` to `w`, coloured if
/// `color_scheme` holds a scheme, and swallows a failure of `w`.
pub fn print_context<T: DebugAnsiColored, W: TextSink>(
    data: &T,
    location: &SourceLocation,
    color_scheme: &Option<AnsiColorScheme>,
    w: &mut W,
)
    ensures
        printed(*old(w), *final(w), message(*data, *color_scheme, *location)),
{
    match color_scheme {
        Some(scheme) => {
            let _ = fmt_context_colored(data, location, scheme, w);
        },
        None => {
            let _ = fmt_context(data, location, w);
        },
    }
}

/// Since `before`, the sink was flushed once and took nothing.
pub open spec fn flushed_only<W: TextSink>(before: W, after: W) -> bool {
    &&& crate::writer::same_sink(before, after)
    &&& after.flush_marks() == before.flush_marks().push(before.written().len())
}

/// Prints the context and flushes the sink once, after the last write.
pub fn print_context_flushed<T: DebugAnsiColored, W: FlushSink>(
    data: &T,
    location: &SourceLocation,
    color_scheme: &Option<AnsiColorScheme>,
    w: &mut W,
)
    ensures
        printed_flushed(*old(w), *final(w), message(*data, *color_scheme, *location)),
{
    let ghost before = *w;
    print_context(data, location, color_scheme, w);
    let ghost mid = *w;
    let _ = w.flush();
    proof {
        lemma_printed_flushed(before, mid, *w, message(*data, *color_scheme, *location));
    }
}

/// Prints what a rendering attempt gave: the rendered context with its
/// `location`, or nothing where the rendering failed.
pub fn print_rendered<T: DebugAnsiColored, W: TextSink>(
    rendered: &Result<T, WriteError>,
    location: &SourceLocation,
    color_scheme: &Option<AnsiColorScheme>,
    w: &mut W,
)
    ensures
        match *rendered {
            Ok(data) => printed(*old(w), *final(w), message(data, *color_scheme, *location)),
            Err(_) => *final(w) == *old(w),
        },
{
    match rendered {
        Ok(data) => print_context(data, location, color_scheme, w),
        Err(_) => {},
    }
}

/// Prints what a rendering attempt gave, as `print_rendered` does, and
/// flushes the sink once, also where the rendering failed.
pub fn print_rendered_flushed<T: DebugAnsiColored, W: FlushSink>(
    rendered: &Result<T, WriteError>,
    location: &SourceLocation,
    color_scheme: &Option<AnsiColorScheme>,
    w: &mut W,
)
    ensures
        match *rendered {
            Ok(data) => printed_flushed(
                *old(w),
                *final(w),
                message(data, *color_scheme, *location),
            ),
            Err(_) => flushed_only(*old(w), *final(w)),
        },
{
    match rendered {
        Ok(data) => print_context_flushed(data, location, color_scheme, w),
        Err(_) => {
            let _ = w.flush();
        },
    }
}

/// With a blank scheme a guard prints what it prints without a scheme:
/// colour only adds to a printed context.
pub proof fn lemma_blank_message_is_plain<T: DebugAnsiColored>(
    data: T,
    scheme: AnsiColorScheme,
    location: SourceLocation,
)
    requires
        scheme.is_blank(),
    ensures
        message(data, Some(scheme), location) == message(data, None, location),
{
    data.lemma_blank_is_plain(scheme);
    lemma_blank_context_is_plain(scheme, data.debug_text(), location);
}

/// Two prints in a row to a sink that accepts both texts leave the first
/// text and then the second, and nothing else.
pub proof fn lemma_printed_in_order<W: TextSink>(
    start: W,
    mid: W,
    end: W,
    first: Seq<char>,
    second: Seq<char>,
)
    requires
        printed(start, mid, first),
        printed(mid, end, second),
        start.accepts(first + second),
    ensures
        crate::writer::progress(start, end, first + second),
        printed(start, end, first + second),
{
    start.lemma_accepts_prefix(first, second);
    assert(mid.accepts(second) == start.accepts(first + second));
    crate::writer::lemma_progress_step(
        start,
        mid,
        end,
        Ok(()),
        first,
        second,
        Seq::<char>::empty(),
    );
}

/// Three nested guards that print to one sink as their scopes are left,
/// the innermost first, leave their three records in that order, with
/// nothing before, between or after them, where the sink accepts them all.
pub proof fn lemma_nested_guards_print_innermost_first<W: TextSink>(
    start: W,
    after_inner: W,
    after_middle: W,
    after_outer: W,
    inner: Seq<char>,
    middle: Seq<char>,
    outer: Seq<char>,
)
    requires
        printed(start, after_inner, inner),
        printed(after_inner, after_middle, middle),
        printed(after_middle, after_outer, outer),
        start.accepts(inner + middle + outer),
    ensures
        after_outer.written() == start.written() + inner + middle + outer,
        after_outer.flush_marks() == start.flush_marks(),
{
    start.lemma_accepts_prefix(inner + middle, outer);
    lemma_printed_in_order(start, after_inner, after_middle, inner, middle);
    lemma_printed_in_order(start, after_middle, after_outer, inner + middle, outer);
}

/// A guard without a scheme of its own, where colours are switched off,
/// prints the plain record: into a buffer with room for it goes the
/// rendering of the context, then on a line of its own the location, and
/// nothing else.
pub proof fn lemma_plain_record_in_buffer<T: DebugAnsiColored>(
    data: T,
    settings: crate::set_colors::ColorSettings,
    location: SourceLocation,
    before: crate::writer::FixedBufWriter,
    after: crate::writer::FixedBufWriter,
)
    requires
        !settings.enabled,
        printed(
            before,
            after,
            message(data, crate::set_colors::resolved_color_scheme(None, settings), location),
        ),
        crate::text_bytes::utf8_len(context_text(data.debug_text(), location)) <= before.room(),
    ensures
        after@ == before@ + data.debug_text() + at_text() + location_text(location) + seq!['\n'],
{
    let text = context_text(data.debug_text(), location);
    assert(before@ + text =~= before@ + data.debug_text() + at_text() + location_text(location)
        + seq!['\n']);
}

} // verus!
