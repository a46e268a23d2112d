//! Captured values that are rendered late: a context holds the values as
//! they are, and their renderings are made only when the context is
//! printed.

use vstd::prelude::*;
use crate::arg::UnwindContextArg;
use crate::args::{ArgList, UnwindContextArgs};
use crate::color_scheme::AnsiColorScheme;
use crate::colored::DebugAnsiColored;
use crate::debug_text::DebugText;
use crate::debug_with::{WithDisplay, WithPrettyDebug};
use crate::func::UnwindContextFunc;
use crate::location::{print_rendered, print_rendered_flushed, SourceLocation};
use crate::non_exhaustive::NonExhaustiveMarker;
use crate::rendered::PreRendered;
use crate::set_colors::{resolve_color_scheme, ColorSettings};
use crate::writer::{FlushSink, TextSink, WriteError};

verus! {

/// A list of captured arguments: the empty list `()`, or a pair of an
/// argument and a list. The values may be of any type that has a `Debug`
/// implementation; what they render as is up to that implementation.
pub trait LazyArgs {
    /// The list with each value replaced by its rendering.
    type Rendered: ArgList;

    /// The name of each argument, in order.
    spec fn names(&self) -> Seq<Option<&'static str>>;

    /// Rendering the list cannot fail: it holds no value whose rendering
    /// is left to formatting code of the value's own.
    spec fn renders_surely(&self) -> bool;

    /// `rendered` is this list with its values rendered: argument by
    /// argument the same name, a marker for a marker, and for any other
    /// value a rendering of it.
    spec fn renders_as(&self, rendered: Self::Rendered) -> bool;

    /// Renders each value of the list now. The arguments keep their order
    /// and their names. The first rendering that fails is handed on; where
    /// none can fail, the list is rendered.
    fn render(&self) -> (rendered: Result<Self::Rendered, WriteError>)
        ensures
            self.renders_surely() ==> rendered is Ok,
            rendered matches Ok(list) ==> self.renders_as(list) && list.names() == self.names(),
    ;
}

impl LazyArgs for () {
    type Rendered = ();

    open spec fn names(&self) -> Seq<Option<&'static str>> {
        Seq::<Option<&'static str>>::empty()
    }

    open spec fn renders_surely(&self) -> bool {
        true
    }

    open spec fn renders_as(&self, rendered: Self::Rendered) -> bool {
        true
    }

    fn render(&self) -> (rendered: Result<Self::Rendered, WriteError>) {
        Ok(())
    }
}

/// Puts a rendered argument in front of the rendered rest of a list.
fn rendered_pair<A: DebugText, Rest: ArgList>(
    name: Option<&'static str>,
    value: Result<A, WriteError>,
    rest: Result<Rest, WriteError>,
) -> (rendered: Result<(UnwindContextArg<A>, Rest), WriteError>)
    ensures
        rendered is Ok <==> value is Ok && rest is Ok,
        rendered matches Ok(list) ==> list.0.name == name && list.0.value == value->Ok_0
            && list.1 == rest->Ok_0 && list.names() == seq![name] + list.1.names(),
        rendered matches Err(e) ==> e == WriteError,
{
    match value {
        Ok(value) => match rest {
            Ok(rest) => {
                let list = (UnwindContextArg::new(name, value), rest);
                assert(list.names() =~= seq![name] + rest.names());
                Ok(list)
            },
            Err(e) => Err(e),
        },
        Err(e) => Err(e),
    }
}

impl<T: core::fmt::Debug, Rest: LazyArgs> LazyArgs for (UnwindContextArg<T>, Rest) {
    type Rendered = (UnwindContextArg<PreRendered>, Rest::Rendered);

    open spec fn names(&self) -> Seq<Option<&'static str>> {
        seq![self.0.name] + self.1.names()
    }

    /// The value's own `Debug` code may fail.
    open spec fn renders_surely(&self) -> bool {
        false
    }

    open spec fn renders_as(&self, rendered: Self::Rendered) -> bool {
        rendered.0.name == self.0.name && self.1.renders_as(rendered.1)
    }

    fn render(&self) -> (rendered: Result<Self::Rendered, WriteError>)
        ensures
            exists|value: Result<PreRendered, WriteError>| #[trigger]
                call_ensures(PreRendered::debug::<T>, (&self.0.value,), value) && match value {
                    Ok(text) => exists|rest: Result<Rest::Rendered, WriteError>| #[trigger]
                        call_ensures(<Rest as LazyArgs>::render, (&self.1,), rest) && rendered
                            == match rest {
                            Ok(rest) => Ok(
                                (UnwindContextArg { name: self.0.name, value: text }, rest),
                            ),
                            Err(e) => Err(e),
                        },
                    Err(_) => rendered is Err,
                },
    {
        let value = PreRendered::debug(&self.0.value);
        assert(call_ensures(PreRendered::debug::<T>, (&self.0.value,), value));
        if value.is_err() {
            return rendered_pair(self.0.name, value, Err(WriteError));
        }
        let rest = self.1.render();
        assert(call_ensures(<Rest as LazyArgs>::render, (&self.1,), rest));
        rendered_pair(self.0.name, value, rest)
    }
}

impl<Rest: LazyArgs> LazyArgs for (UnwindContextArg<NonExhaustiveMarker>, Rest) {
    type Rendered = (UnwindContextArg<NonExhaustiveMarker>, Rest::Rendered);

    open spec fn names(&self) -> Seq<Option<&'static str>> {
        seq![self.0.name] + self.1.names()
    }

    /// A marker always renders, so the list does where the rest does.
    open spec fn renders_surely(&self) -> bool {
        self.1.renders_surely()
    }

    open spec fn renders_as(&self, rendered: Self::Rendered) -> bool {
        rendered.0.name == self.0.name && rendered.0.value == self.0.value && self.1.renders_as(
            rendered.1,
        )
    }

    fn render(&self) -> (rendered: Result<Self::Rendered, WriteError>)
        ensures
            exists|rest: Result<Rest::Rendered, WriteError>| #[trigger]
                call_ensures(<Rest as LazyArgs>::render, (&self.1,), rest) && rendered
                    == match rest {
                    Ok(rest) => Ok(
                        (UnwindContextArg { name: self.0.name, value: NonExhaustiveMarker }, rest),
                    ),
                    Err(e) => Err(e),
                },
    {
        let rest = self.1.render();
        assert(call_ensures(<Rest as LazyArgs>::render, (&self.1,), rest));
        rendered_pair(self.0.name, Ok(NonExhaustiveMarker), rest)
    }
}

/// An argument that is shown by its display rendering.
impl<T: core::fmt::Display, Rest: LazyArgs> LazyArgs for (
    UnwindContextArg<WithDisplay<T>>,
    Rest,
) {
    type Rendered = (UnwindContextArg<PreRendered>, Rest::Rendered);

    open spec fn names(&self) -> Seq<Option<&'static str>> {
        seq![self.0.name] + self.1.names()
    }

    /// The value's own `Display` code may fail.
    open spec fn renders_surely(&self) -> bool {
        false
    }

    open spec fn renders_as(&self, rendered: Self::Rendered) -> bool {
        rendered.0.name == self.0.name && self.1.renders_as(rendered.1)
    }

    fn render(&self) -> (rendered: Result<Self::Rendered, WriteError>)
        ensures
            exists|value: Result<PreRendered, WriteError>| #[trigger]
                call_ensures(PreRendered::display::<T>, (&self.0.value.0,), value) && match value {
                    Ok(text) => exists|rest: Result<Rest::Rendered, WriteError>| #[trigger]
                        call_ensures(<Rest as LazyArgs>::render, (&self.1,), rest) && rendered
                            == match rest {
                            Ok(rest) => Ok(
                                (UnwindContextArg { name: self.0.name, value: text }, rest),
                            ),
                            Err(e) => Err(e),
                        },
                    Err(_) => rendered is Err,
                },
    {
        let value = PreRendered::display(&self.0.value.0);
        assert(call_ensures(PreRendered::display::<T>, (&self.0.value.0,), value));
        if value.is_err() {
            return rendered_pair(self.0.name, value, Err(WriteError));
        }
        let rest = self.1.render();
        assert(call_ensures(<Rest as LazyArgs>::render, (&self.1,), rest));
        rendered_pair(self.0.name, value, rest)
    }
}

/// An argument that is shown by its pretty debug rendering.
impl<T: core::fmt::Debug, Rest: LazyArgs> LazyArgs for (
    UnwindContextArg<WithPrettyDebug<T>>,
    Rest,
) {
    type Rendered = (UnwindContextArg<PreRendered>, Rest::Rendered);

    open spec fn names(&self) -> Seq<Option<&'static str>> {
        seq![self.0.name] + self.1.names()
    }

    /// The value's own `Debug` code may fail.
    open spec fn renders_surely(&self) -> bool {
        false
    }

    open spec fn renders_as(&self, rendered: Self::Rendered) -> bool {
        rendered.0.name == self.0.name && self.1.renders_as(rendered.1)
    }

    fn render(&self) -> (rendered: Result<Self::Rendered, WriteError>)
        ensures
            exists|value: Result<PreRendered, WriteError>| #[trigger]
                call_ensures(PreRendered::pretty_debug::<T>, (&self.0.value.0,), value)
                && match value {
                    Ok(text) => exists|rest: Result<Rest::Rendered, WriteError>| #[trigger]
                        call_ensures(<Rest as LazyArgs>::render, (&self.1,), rest) && rendered
                            == match rest {
                            Ok(rest) => Ok(
                                (UnwindContextArg { name: self.0.name, value: text }, rest),
                            ),
                            Err(e) => Err(e),
                        },
                    Err(_) => rendered is Err,
                },
    {
        let value = PreRendered::pretty_debug(&self.0.value.0);
        assert(call_ensures(PreRendered::pretty_debug::<T>, (&self.0.value.0,), value));
        if value.is_err() {
            return rendered_pair(self.0.name, value, Err(WriteError));
        }
        let rest = self.1.render();
        assert(call_ensures(<Rest as LazyArgs>::render, (&self.1,), rest));
        rendered_pair(self.0.name, value, rest)
    }
}

/// A captured context: the arguments of a scope, or a function with its
/// arguments.
pub trait LazyContext {
    /// The context with each value replaced by its rendering.
    type Rendered: DebugAnsiColored;

    /// Rendering the context cannot fail: it holds no value whose
    /// rendering is left to formatting code of the value's own.
    spec fn renders_surely(&self) -> bool;

    /// `rendered` is this context with its values rendered: the same
    /// function name, where there is one, and the arguments rendered.
    spec fn renders_as(&self, rendered: Self::Rendered) -> bool;

    /// Renders each value of the context now. The first rendering that
    /// fails is handed on; where none can fail, the context is rendered.
    fn render(&self) -> (rendered: Result<Self::Rendered, WriteError>)
        ensures
            self.renders_surely() ==> rendered is Ok,
            rendered matches Ok(context) ==> self.renders_as(context),
    ;
}

impl<Params: LazyArgs> LazyContext for UnwindContextArgs<Params> {
    type Rendered = UnwindContextArgs<Params::Rendered>;

    open spec fn renders_surely(&self) -> bool {
        self.0.renders_surely()
    }

    open spec fn renders_as(&self, rendered: Self::Rendered) -> bool {
        self.0.renders_as(rendered.0) && rendered.0.names() == self.0.names()
    }

    fn render(&self) -> (rendered: Result<Self::Rendered, WriteError>)
        ensures
            exists|list: Result<Params::Rendered, WriteError>| #[trigger]
                call_ensures(<Params as LazyArgs>::render, (&self.0,), list) && rendered
                    == match list {
                    Ok(args) => Ok(UnwindContextArgs(args)),
                    Err(e) => Err(e),
                },
    {
        let list = self.0.render();
        assert(call_ensures(<Params as LazyArgs>::render, (&self.0,), list));
        match list {
            Ok(args) => Ok(UnwindContextArgs::new(args)),
            Err(e) => Err(e),
        }
    }
}

impl<Args: LazyArgs> LazyContext for UnwindContextFunc<Args> {
    type Rendered = UnwindContextFunc<Args::Rendered>;

    open spec fn renders_surely(&self) -> bool {
        self.args.renders_surely()
    }

    open spec fn renders_as(&self, rendered: Self::Rendered) -> bool {
        rendered.name == self.name && self.args.renders_as(rendered.args)
            && rendered.args.names() == self.args.names()
    }

    fn render(&self) -> (rendered: Result<Self::Rendered, WriteError>)
        ensures
            exists|list: Result<Args::Rendered, WriteError>| #[trigger]
                call_ensures(<Args as LazyArgs>::render, (&self.args,), list) && rendered
                    == match list {
                    Ok(args) => Ok((UnwindContextFunc { name: self.name, args })),
                    Err(e) => Err(e),
                },
    {
        let list = self.args.render();
        assert(call_ensures(<Args as LazyArgs>::render, (&self.args,), list));
        match list {
            Ok(args) => Ok(UnwindContextFunc::new(self.name, args)),
            Err(e) => Err(e),
        }
    }
}

/// What leaving the scope of a captured context leaves behind on a sink
/// while the thread is unwinding: for what rendering the context gave,
/// what printing that rendering leaves, or nothing where the rendering
/// failed.
pub open spec fn left_unwinding<T: LazyContext, W: TextSink>(
    before: W,
    after: W,
    data: T,
    color_scheme: Option<AnsiColorScheme>,
    location: SourceLocation,
) -> bool {
    exists|rendered: Result<T::Rendered, WriteError>| #[trigger]
        call_ensures(<T as LazyContext>::render, (&data,), rendered) && match rendered {
            Ok(context) => crate::location::printed(
                before,
                after,
                crate::location::message(context, color_scheme, location),
            ),
            Err(_) => after == before,
        }
}

/// What leaving the scope of a captured context leaves behind on a sink
/// that is flushed, while the thread is unwinding: for what rendering the
/// context gave, what printing that rendering and flushing once leaves, or
/// one flush alone where the rendering failed.
pub open spec fn left_unwinding_flushed<T: LazyContext, W: FlushSink>(
    before: W,
    after: W,
    data: T,
    color_scheme: Option<AnsiColorScheme>,
    location: SourceLocation,
) -> bool {
    exists|rendered: Result<T::Rendered, WriteError>| #[trigger]
        call_ensures(<T as LazyContext>::render, (&data,), rendered) && match rendered {
            Ok(context) => crate::location::printed_flushed(
                before,
                after,
                crate::location::message(context, color_scheme, location),
            ),
            Err(_) => crate::location::flushed_only(before, after),
        }
}

/// Leaves the scope of the captured context `data`, given whether the
/// thread is unwinding. If it is, the values are rendered now and the
/// context is printed to `w` with its `location`: in the colours of `own`
/// if that is a scheme, else in those of `settings` if colours are switched
/// on there, else without colours. A failure of a rendering or of `w` is
/// swallowed; a context that renders surely is printed. If the thread is
/// not unwinding, nothing is rendered and nothing is written.
pub fn leave_scope<T: LazyContext, W: TextSink>(
    data: &T,
    unwinding: bool,
    location: &SourceLocation,
    own: Option<AnsiColorScheme>,
    settings: &ColorSettings,
    w: &mut W,
)
    ensures
        !unwinding ==> *final(w) == *old(w),
        unwinding ==> left_unwinding(
            *old(w),
            *final(w),
            *data,
            crate::set_colors::resolved_color_scheme(own, *settings),
            *location,
        ),
        unwinding && data.renders_surely() ==> exists|context: T::Rendered|
            data.renders_as(context) && #[trigger] crate::location::printed(
                *old(w),
                *final(w),
                crate::location::message(
                    context,
                    crate::set_colors::resolved_color_scheme(own, *settings),
                    *location,
                ),
            ),
{
    if unwinding {
        let scheme = resolve_color_scheme(own, settings);
        let rendered = data.render();
        print_rendered(&rendered, location, &scheme, w);
    }
}

/// Leaves the scope of the captured context `data` as `leave_scope` does,
/// over a sink that is flushed: while the thread is unwinding the sink is
/// flushed once, after the last write, also where a rendering or a write
/// failed. If the thread is not unwinding, nothing is written or flushed.
pub fn leave_scope_flushed<T: LazyContext, W: FlushSink>(
    data: &T,
    unwinding: bool,
    location: &SourceLocation,
    own: Option<AnsiColorScheme>,
    settings: &ColorSettings,
    w: &mut W,
)
    ensures
        !unwinding ==> *final(w) == *old(w),
        unwinding ==> left_unwinding_flushed(
            *old(w),
            *final(w),
            *data,
            crate::set_colors::resolved_color_scheme(own, *settings),
            *location,
        ),
        unwinding && data.renders_surely() ==> exists|context: T::Rendered|
            data.renders_as(context) && #[trigger] crate::location::printed_flushed(
                *old(w),
                *final(w),
                crate::location::message(
                    context,
                    crate::set_colors::resolved_color_scheme(own, *settings),
                    *location,
                ),
            ),
{
    if unwinding {
        let scheme = resolve_color_scheme(own, settings);
        let rendered = data.render();
        print_rendered_flushed(&rendered, location, &scheme, w);
    }
}

} // verus!
