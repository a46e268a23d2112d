//! Argument lists: an ordered list of arguments of any types, built of
//! pairs, that renders as the arguments joined by commas.

use vstd::prelude::*;
use crate::arg::UnwindContextArg;
use crate::color_scheme::AnsiColorScheme;
use crate::colored::DebugAnsiColored;
use crate::debug_text::DebugText;
use crate::writer::{write_piece, TextSink, WriteError};

verus! {

/// The texts `items`, joined by a comma and a space; the empty text for no
/// items.
pub open spec fn join_comma(items: Seq<Seq<char>>) -> Seq<char>
    decreases items.len(),
{
    if items.len() == 0 {
        Seq::<char>::empty()
    } else if items.len() == 1 {
        items[0]
    } else {
        items[0] + seq![',', ' '] + join_comma(items.drop_first())
    }
}

/// The texts `items` in a row, with a comma and a space in front of each
/// but the first; in front of the first too if `lead` is set.
pub open spec fn join_from(items: Seq<Seq<char>>, lead: bool) -> Seq<char>
    decreases items.len(),
{
    if items.len() == 0 {
        Seq::<char>::empty()
    } else {
        (if lead {
            seq![',', ' ']
        } else {
            Seq::<char>::empty()
        }) + items[0] + join_from(items.drop_first(), true)
    }
}

/// Without a leading separator, `join_from` is `join_comma`.
pub proof fn lemma_join_from_is_join_comma(items: Seq<Seq<char>>)
    ensures
        join_from(items, false) == join_comma(items),
        items.len() > 0 ==> join_from(items, true) == seq![',', ' '] + join_comma(items),
    decreases items.len(),
{
    if items.len() == 0 {
    } else {
        let rest = items.drop_first();
        lemma_join_from_is_join_comma(rest);
        if items.len() == 1 {
            assert(join_from(rest, true) =~= Seq::<char>::empty());
            assert(join_from(items, false) =~= items[0]);
            assert(join_from(items, true) =~= seq![',', ' '] + items[0]);
        } else {
            assert(join_from(items, false) =~= items[0] + seq![',', ' '] + join_comma(rest));
            assert(join_from(items, true) =~= seq![',', ' '] + (items[0] + seq![',', ' ']
                + join_comma(rest)));
        }
    }
}

/// A list of arguments: the empty list `()`, or a pair of an argument and a
/// list.
///
/// The length of a list and the type of each argument are part of the
/// list's type; rendering walks the pairs and nothing else.
pub trait ArgList {
    /// The name of each argument, in order.
    spec fn names(&self) -> Seq<Option<&'static str>>;

    /// The plain rendering of each argument, in order.
    spec fn texts(&self) -> Seq<Seq<char>>;

    /// The colourised rendering of each argument, in order.
    spec fn colored_texts(&self, scheme: AnsiColorScheme) -> Seq<Seq<char>>;

    /// With a blank scheme each argument's colourised rendering is its
    /// plain one.
    proof fn lemma_blank_is_plain(&self, scheme: AnsiColorScheme)
        requires
            scheme.is_blank(),
        ensures
            self.colored_texts(scheme) == self.texts(),
    ;

    /// Each argument has one name, one plain and one colourised rendering,
    /// and both renderings start with the name, a colon and a space where
    /// the argument has a name.
    proof fn lemma_names_lead(&self, scheme: AnsiColorScheme)
        ensures
            self.texts().len() == self.names().len(),
            self.colored_texts(scheme).len() == self.names().len(),
            forall|at: int|
                0 <= at < self.names().len() ==> crate::arg::name_prefix(
                    self.names()[at],
                ).is_prefix_of(#[trigger] self.texts()[at]),
            forall|at: int|
                0 <= at < self.names().len() ==> crate::arg::name_prefix(
                    self.names()[at],
                ).is_prefix_of(#[trigger] self.colored_texts(scheme)[at]),
    ;

    /// Writes the arguments to `w`, separated by a comma and a space, with
    /// a separator in front of the first one too if `lead` is set.
    fn fmt_items<W: TextSink>(&self, w: &mut W, lead: bool) -> (r: Result<(), WriteError>)
        ensures
            crate::writer::wrote(*old(w), *final(w), r, join_from(self.texts(), lead)),
    ;

    /// Writes the arguments to `w` as `fmt_items` does, each one
    /// colourised.
    fn fmt_items_colored<W: TextSink>(
        &self,
        w: &mut W,
        color_scheme: &AnsiColorScheme,
        lead: bool,
    ) -> (r: Result<(), WriteError>)
        ensures
            crate::writer::wrote(
                *old(w),
                *final(w),
                r,
                join_from(self.colored_texts(*color_scheme), lead),
            ),
    ;
}

impl ArgList for () {
    open spec fn names(&self) -> Seq<Option<&'static str>> {
        Seq::<Option<&'static str>>::empty()
    }

    open spec fn texts(&self) -> Seq<Seq<char>> {
        Seq::<Seq<char>>::empty()
    }

    open spec fn colored_texts(&self, scheme: AnsiColorScheme) -> Seq<Seq<char>> {
        Seq::<Seq<char>>::empty()
    }

    proof fn lemma_blank_is_plain(&self, scheme: AnsiColorScheme) {
    }

    proof fn lemma_names_lead(&self, scheme: AnsiColorScheme) {
    }

    fn fmt_items<W: TextSink>(&self, w: &mut W, lead: bool) -> (r: Result<(), WriteError>) {
        proof {
            crate::writer::lemma_progress_start(*w);
        }
        Ok(())
    }

    fn fmt_items_colored<W: TextSink>(
        &self,
        w: &mut W,
        color_scheme: &AnsiColorScheme,
        lead: bool,
    ) -> (r: Result<(), WriteError>) {
        proof {
            crate::writer::lemma_progress_start(*w);
        }
        Ok(())
    }
}

impl<L: ArgList> ArgList for &L {
    open spec fn names(&self) -> Seq<Option<&'static str>> {
        (**self).names()
    }

    open spec fn texts(&self) -> Seq<Seq<char>> {
        (**self).texts()
    }

    open spec fn colored_texts(&self, scheme: AnsiColorScheme) -> Seq<Seq<char>> {
        (**self).colored_texts(scheme)
    }

    proof fn lemma_blank_is_plain(&self, scheme: AnsiColorScheme) {
        (**self).lemma_blank_is_plain(scheme);
    }

    proof fn lemma_names_lead(&self, scheme: AnsiColorScheme) {
        (**self).lemma_names_lead(scheme);
    }

    fn fmt_items<W: TextSink>(&self, w: &mut W, lead: bool) -> (r: Result<(), WriteError>) {
        (**self).fmt_items(w, lead)
    }

    fn fmt_items_colored<W: TextSink>(
        &self,
        w: &mut W,
        color_scheme: &AnsiColorScheme,
        lead: bool,
    ) -> (r: Result<(), WriteError>) {
        (**self).fmt_items_colored(w, color_scheme, lead)
    }
}

/// Writes the separator if `lead` is set; `tail` is what follows in the
/// text being written.
fn fmt_lead<W: TextSink>(w: &mut W, lead: bool, Ghost(tail): Ghost<Seq<char>>) -> (r: Result<
    (),
    WriteError,
>)
    ensures
        r is Ok ==> crate::writer::progress(
            *old(w),
            *final(w),
            if lead {
                seq![',', ' ']
            } else {
                Seq::<char>::empty()
            },
        ),
        r is Err ==> crate::writer::wrote(
            *old(w),
            *final(w),
            r,
            (if lead {
                seq![',', ' ']
            } else {
                Seq::<char>::empty()
            }) + tail,
        ),
{
    let ghost before = *w;
    proof {
        crate::writer::lemma_progress_start(before);
    }
    if lead {
        proof {
            reveal_strlit(", ");
            assert(", "@ =~= seq![',', ' ']);
            assert(Seq::<char>::empty() + ", "@ =~= seq![',', ' ']);
            assert(Seq::<char>::empty() + ", "@ + tail =~= seq![',', ' '] + tail);
        }
        write_piece(w, ", ", Ghost(before), Ghost(Seq::empty()), Ghost(tail))
    } else {
        Ok(())
    }
}

impl<T: DebugText, Rest: ArgList> ArgList for (UnwindContextArg<T>, Rest) {
    open spec fn names(&self) -> Seq<Option<&'static str>> {
        seq![self.0.name] + self.1.names()
    }

    open spec fn texts(&self) -> Seq<Seq<char>> {
        seq![self.0.debug_text()] + self.1.texts()
    }

    open spec fn colored_texts(&self, scheme: AnsiColorScheme) -> Seq<Seq<char>> {
        seq![self.0.colored_text(scheme)] + self.1.colored_texts(scheme)
    }

    proof fn lemma_blank_is_plain(&self, scheme: AnsiColorScheme) {
        self.0.lemma_blank_is_plain(scheme);
        self.1.lemma_blank_is_plain(scheme);
    }

    proof fn lemma_names_lead(&self, scheme: AnsiColorScheme) {
        let names = seq![self.0.name] + self.1.names();
        let texts = seq![self.0.debug_text()] + self.1.texts();
        let colored = seq![self.0.colored_text(scheme)] + self.1.colored_texts(scheme);
        self.1.lemma_names_lead(scheme);
        assert forall|at: int| 0 <= at < names.len() implies crate::arg::name_prefix(
            names[at],
        ).is_prefix_of(#[trigger] texts[at]) by {
            if at > 0 {
                assert(names[at] == self.1.names()[at - 1]);
                assert(texts[at] == self.1.texts()[at - 1]);
            }
        }
        assert forall|at: int| 0 <= at < names.len() implies crate::arg::name_prefix(
            names[at],
        ).is_prefix_of(#[trigger] colored[at]) by {
            if at > 0 {
                assert(names[at] == self.1.names()[at - 1]);
                assert(colored[at] == self.1.colored_texts(scheme)[at - 1]);
            }
        }
    }

    fn fmt_items<W: TextSink>(&self, w: &mut W, lead: bool) -> (r: Result<(), WriteError>) {
        let ghost before = *w;
        let ghost first = self.0.debug_text();
        let ghost items = seq![first] + self.1.texts();
        let ghost sep = if lead {
            seq![',', ' ']
        } else {
            Seq::<char>::empty()
        };
        let ghost rest = join_from(self.1.texts(), true);
        proof {
            assert(items.drop_first() =~= self.1.texts());
            assert(join_from(items, lead) =~= sep + (first + rest));
            assert(join_from(items, lead) =~= sep + first + rest);
        }
        fmt_lead(w, lead, Ghost(first + rest))?;
        let ghost mid = *w;
        let r = self.0.fmt(w);
        proof {
            crate::writer::lemma_progress_step(before, mid, *w, r, sep, first, rest);
        }
        if r.is_err() {
            return r;
        }
        let ghost mid = *w;
        let r = self.1.fmt_items(w, true);
        proof {
            crate::writer::lemma_progress_step(
                before,
                mid,
                *w,
                r,
                sep + first,
                rest,
                Seq::<char>::empty(),
            );
            assert(sep + first + rest + Seq::<char>::empty() =~= sep + first + rest);
        }
        r
    }

    fn fmt_items_colored<W: TextSink>(
        &self,
        w: &mut W,
        color_scheme: &AnsiColorScheme,
        lead: bool,
    ) -> (r: Result<(), WriteError>) {
        let ghost before = *w;
        let ghost first = self.0.colored_text(*color_scheme);
        let ghost items = seq![first] + self.1.colored_texts(*color_scheme);
        let ghost sep = if lead {
            seq![',', ' ']
        } else {
            Seq::<char>::empty()
        };
        let ghost rest = join_from(self.1.colored_texts(*color_scheme), true);
        proof {
            assert(items.drop_first() =~= self.1.colored_texts(*color_scheme));
            assert(join_from(items, lead) =~= sep + (first + rest));
            assert(join_from(items, lead) =~= sep + first + rest);
        }
        fmt_lead(w, lead, Ghost(first + rest))?;
        let ghost mid = *w;
        let r = self.0.fmt_colored(w, color_scheme);
        proof {
            crate::writer::lemma_progress_step(before, mid, *w, r, sep, first, rest);
        }
        if r.is_err() {
            return r;
        }
        let ghost mid = *w;
        let r = self.1.fmt_items_colored(w, color_scheme, true);
        proof {
            crate::writer::lemma_progress_step(
                before,
                mid,
                *w,
                r,
                sep + first,
                rest,
                Seq::<char>::empty(),
            );
            assert(sep + first + rest + Seq::<char>::empty() =~= sep + first + rest);
        }
        r
    }
}

/// The arguments of a scope: a list of names and values.
#[derive(Clone, Eq, PartialEq, Ord, PartialOrd, Hash)]
pub struct UnwindContextArgs<Params>(
    /// The arguments, as a list built of pairs.
    pub Params,
);

impl<Params> UnwindContextArgs<Params> {
    /// Wraps the list `args`, which is `()` or a pair of an argument and a
    /// list, such as `(a, (b, (c, ())))`. Nothing is rendered yet.
    pub fn new(args: Params) -> (list: Self)
        ensures
            list.0 == args,
    {
        Self(args)
    }
}

impl<Params: ArgList> DebugText for UnwindContextArgs<Params> {
    /// The renderings of the arguments, joined by a comma and a space.
    open spec fn debug_text(&self) -> Seq<char> {
        join_comma(self.0.texts())
    }

    fn fmt<W: TextSink>(&self, w: &mut W) -> (r: Result<(), WriteError>) {
        proof {
            lemma_join_from_is_join_comma(self.0.texts());
        }
        self.0.fmt_items(w, false)
    }
}

impl<Params: ArgList> DebugAnsiColored for UnwindContextArgs<Params> {
    /// The colourised renderings of the arguments, joined by a comma and a
    /// space in no colour.
    open spec fn colored_text(&self, scheme: AnsiColorScheme) -> Seq<char> {
        join_comma(self.0.colored_texts(scheme))
    }

    proof fn lemma_blank_is_plain(&self, scheme: AnsiColorScheme) {
        self.0.lemma_blank_is_plain(scheme);
    }

    fn fmt_colored<W: TextSink>(&self, w: &mut W, color_scheme: &AnsiColorScheme) -> (r: Result<
        (),
        WriteError,
    >) {
        proof {
            lemma_join_from_is_join_comma(self.0.colored_texts(*color_scheme));
        }
        self.0.fmt_items_colored(w, color_scheme, false)
    }
}

/// The rendering of the empty list is the empty text, and the rendering of
/// a list is the rendering of its first argument, followed, where more
/// arguments come, by a comma, a space and the rendering of the rest.
pub proof fn lemma_args_text<T: DebugText, Rest: ArgList>(first: UnwindContextArg<T>, rest: Rest)
    ensures
        UnwindContextArgs(()).debug_text() == Seq::<char>::empty(),
        UnwindContextArgs((first, rest)).debug_text() == if rest.texts().len() == 0 {
            first.debug_text()
        } else {
            first.debug_text() + seq![',', ' '] + UnwindContextArgs(rest).debug_text()
        },
        UnwindContextArgs((first, rest)).0.texts().len() == rest.texts().len() + 1,
{
    let items = (first, rest).texts();
    assert(items.drop_first() =~= rest.texts());
    assert(items[0] == first.debug_text());
}

} // verus!
