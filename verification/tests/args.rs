use unwind_context::{
    leave_scope, leave_scope_flushed, print_rendered, print_rendered_flushed, set_colors_enabled,
    AnsiColorScheme, AnsiColored, ColorSettings, DebugText, FixedBufWriter, LazyArgs,
    LazyContext, NonExhaustiveMarker, PreRendered, SourceLocation, UnwindContextArg,
    UnwindContextArgs, UnwindContextFunc, WithDisplay, WithPrettyDebug, WriteError,
};

fn test_scheme() -> AnsiColorScheme {
    AnsiColorScheme {
        default: "{DEF}",
        location: "{LOC}",
        fn_keyword: "{FN}",
        func_name: "{FN_NAME}",
        func_braces: "{FN_BRACE}",
        value_braces: "{BRACE}",
        ident: "{IDENT}",
        item: "{ITEM}",
        boolean: "{BOOL}",
        number: "{NUM}",
        quoted: "{QUOT}",
        escaped: "{ESC}",
    }
}

fn debug_fmt<T: DebugText>(capacity: usize, value: &T) -> Result<String, WriteError> {
    let mut writer = FixedBufWriter::new(capacity);
    value.fmt(&mut writer)?;
    Ok(writer.into_string())
}

fn arg<T>(name: Option<&'static str>, value: T) -> UnwindContextArg<T> {
    UnwindContextArg::new(name, value)
}

fn args<T>(args: T) -> UnwindContextArgs<T> {
    UnwindContextArgs::new(args)
}

fn colored_args<T>(args: T) -> AnsiColored<UnwindContextArgs<T>> {
    AnsiColored::new(UnwindContextArgs::new(args), test_scheme())
}

fn ok(text: &str) -> Result<String, WriteError> {
    Ok(text.to_string())
}

#[test]
fn test_args_fmt() {
    assert_eq!(debug_fmt(64, &args(())), ok(""));
    assert_eq!(debug_fmt(64, &args(&())), ok(""));

    assert_eq!(debug_fmt(64, &args((arg(Some("foo"), 1), ()))), ok("foo: 1"));
    assert_eq!(debug_fmt(64, &args(&(arg(Some("foo"), 1), ()))), ok("foo: 1"));

    assert_eq!(
        debug_fmt(64, &args(&(arg(Some("foo"), 1), (arg(Some("bar"), 2), ())))),
        ok("foo: 1, bar: 2")
    );

    assert_eq!(
        debug_fmt(
            64,
            &args(&(arg(Some("foo"), 1), (arg(Some("bar"), 2), (arg(Some("baz"), 3), ()))))
        ),
        ok("foo: 1, bar: 2, baz: 3")
    );

    assert_eq!(
        debug_fmt(64, &args(&(arg(Some("foo"), 1), (arg(Some("bar"), 2), (arg(None, 3), ()))))),
        ok("foo: 1, bar: 2, 3")
    );
}

#[test]
fn test_args_colored_fmt() {
    assert_eq!(debug_fmt(64, &colored_args(())), ok(""));
    assert_eq!(debug_fmt(64, &colored_args(&())), ok(""));

    assert_eq!(debug_fmt(64, &colored_args((arg(Some("foo"), 1), ()))), ok("foo: {NUM}1{DEF}"));

    assert_eq!(
        debug_fmt(
            64,
            &colored_args(&(arg(Some("foo"), 1), (arg(Some("bar"), 2), (arg(None, 3), ()))))
        ),
        ok("foo: {NUM}1{DEF}, bar: {NUM}2{DEF}, {NUM}3{DEF}")
    );
}

#[test]
fn test_args_failed_fmt() {
    let args = args((arg(Some("foo"), 1), (arg(Some("bar"), 2), ())));

    let len = debug_fmt(64, &args).unwrap().len();
    for len in 0..len {
        assert_eq!(debug_fmt(len, &args), Err(WriteError));
    }
}

#[test]
fn test_args_failed_colored_fmt() {
    let args = colored_args((arg(Some("foo"), 1), (arg(Some("bar"), 2), ())));

    let len = debug_fmt(64, &args).unwrap().len();
    for len in 0..len {
        assert_eq!(debug_fmt(len, &args), Err(WriteError));
    }
}

#[test]
fn test_unwind_context_data() {
    let foo = 123;
    let bar = "value";

    let context = args((arg(Some("foo"), foo), ()));
    assert_eq!(debug_fmt(128, &context).unwrap(), "foo: 123");

    let context = args((arg(Some("foo"), foo), (arg(None, 234), ())));
    assert_eq!(debug_fmt(128, &context).unwrap(), "foo: 123, 234");

    let context = args((arg(Some("foo"), foo), (arg(None, 234), (arg(Some("bar"), bar), ()))));
    assert_eq!(debug_fmt(128, &context).unwrap(), "foo: 123, 234, bar: \"value\"");

    let context = UnwindContextFunc::new(
        "func",
        (arg(Some("foo"), foo), (arg(None, 234), (arg(Some("bar"), bar), ()))),
    );
    assert_eq!(debug_fmt(128, &context).unwrap(), "fn func(foo: 123, 234, bar: \"value\")");

    let context = UnwindContextFunc::new(
        "mod::func",
        (arg(Some("foo"), foo), (arg(None, 234), (arg(Some("bar"), bar), ()))),
    );
    assert_eq!(debug_fmt(128, &context).unwrap(), "fn mod::func(foo: 123, 234, bar: \"value\")");

    let context = UnwindContextFunc::new(
        "func",
        (
            arg(None, NonExhaustiveMarker),
            (arg(Some("foo"), foo), (arg(None, 234), (arg(Some("bar"), bar), ()))),
        ),
    );
    assert_eq!(debug_fmt(128, &context).unwrap(), "fn func(..., foo: 123, 234, bar: \"value\")");

    let context = UnwindContextFunc::new(
        "func",
        (
            arg(Some("foo"), foo),
            (arg(None, NonExhaustiveMarker), (arg(None, 234), (arg(Some("bar"), bar), ()))),
        ),
    );
    assert_eq!(debug_fmt(128, &context).unwrap(), "fn func(foo: 123, ..., 234, bar: \"value\")");

    let context = UnwindContextFunc::new(
        "func",
        (
            arg(Some("foo"), foo),
            (arg(None, 234), (arg(Some("bar"), bar), (arg(None, NonExhaustiveMarker), ()))),
        ),
    );
    assert_eq!(debug_fmt(128, &context).unwrap(), "fn func(foo: 123, 234, bar: \"value\", ...)");

    let context = UnwindContextFunc::new(
        unwind_context::func_name_from_item_type_name(
            "args",
            "args::test_unwind_context_data::inner_context1::Item",
        ),
        (arg(Some("foo"), foo), (arg(Some("bar"), bar), ())),
    );
    let formatted = debug_fmt(128, &context).unwrap();
    assert!(formatted.starts_with("fn "));
    assert!(formatted.contains("inner_context1"));
    assert!(formatted.ends_with("(foo: 123, bar: \"value\")"));

    let context = UnwindContextFunc::new(
        unwind_context::func_name_from_item_type_name(
            "args",
            "args::test_unwind_context_data::inner_context2::Item",
        ),
        (arg(Some("foo"), foo), (arg(Some("bar"), bar), (arg(None, NonExhaustiveMarker), ()))),
    );
    let formatted = debug_fmt(128, &context).unwrap();
    assert!(formatted.starts_with("fn "));
    assert!(formatted.contains("inner_context2"));
    assert!(formatted.ends_with("(foo: 123, bar: \"value\", ...)"));
}

#[test]
fn test_args_plain_is_comma_joined() {
    let list = args((
        arg(Some("a"), -5i64),
        (arg(None, NonExhaustiveMarker), (arg(Some("c"), true), (arg(None, 'x'), ()))),
    ));
    let parts = ["a: -5", "...", "c: true", "'x'"];
    assert_eq!(debug_fmt(64, &list).unwrap(), parts.join(", "));
    assert_eq!(debug_fmt(64, &list), debug_fmt(64, &list));
}

#[test]
fn test_args_blank_scheme_is_plain() {
    let blank = AnsiColorScheme {
        default: "",
        location: "",
        fn_keyword: "",
        func_name: "",
        func_braces: "",
        value_braces: "",
        ident: "",
        item: "",
        boolean: "",
        number: "",
        quoted: "",
        escaped: "",
    };
    let list = (arg(Some("foo"), "a\"b"), (arg(None, 12u8), (arg(Some("t"), true), ())));
    let plain = debug_fmt(128, &args(&list)).unwrap();
    let colored = debug_fmt(128, &AnsiColored::new(args(&list), blank)).unwrap();
    assert_eq!(plain, "foo: \"a\\\"b\", 12, t: true");
    assert_eq!(colored, plain);

    let func = UnwindContextFunc::new("f", &list);
    let plain = debug_fmt(128, &func).unwrap();
    let colored = debug_fmt(128, &AnsiColored::new(&func, blank)).unwrap();
    assert_eq!(plain, "fn f(foo: \"a\\\"b\", 12, t: true)");
    assert_eq!(colored, plain);
}

#[derive(Debug)]
struct Point {
    x: i32,
    y: i32,
}

#[test]
fn test_lazy_context_renders_when_asked() {
    let point = Point { x: 1, y: -2 };
    let list = (
        arg(Some("point"), &point),
        (arg(None, NonExhaustiveMarker), (arg(Some("tags"), vec!["a", "b"]), ())),
    );

    let rendered = list.render().unwrap();
    assert_eq!(rendered.0.name, Some("point"));
    assert_eq!(rendered.1 .0.name, None);
    assert_eq!(rendered.1 .1 .0.name, Some("tags"));
    assert_eq!(
        debug_fmt(128, &args(&rendered)),
        ok("point: Point { x: 1, y: -2 }, ..., tags: [\"a\", \"b\"]")
    );

    let func = UnwindContextFunc::new("draw", list);
    assert_eq!(
        debug_fmt(128, &func.render().unwrap()),
        ok("fn draw(point: Point { x: 1, y: -2 }, ..., tags: [\"a\", \"b\"])")
    );
    assert_eq!(
        debug_fmt(256, &AnsiColored::new(func.render().unwrap(), test_scheme())),
        ok(&[
            "{FN}fn {FN_NAME}draw{FN_BRACE}({DEF}",
            "point: {ITEM}Point{DEF} {BRACE}{{DEF} {IDENT}x{DEF}: {NUM}1{DEF}, ",
            "{IDENT}y{DEF}: {NUM}-2{DEF} {BRACE}}{DEF}, ",
            "{NUM}...{DEF}, ",
            "tags: {BRACE}[{QUOT}\"a\"{DEF}, {QUOT}\"b\"{BRACE}]{DEF}",
            "{FN_BRACE}){DEF}"
        ]
        .concat())
    );

    let scope = UnwindContextArgs::new((arg(Some("n"), 5u8), ()));
    assert_eq!(debug_fmt(64, &scope.render().unwrap()), ok("n: 5"));
    assert_eq!(debug_fmt(64, &UnwindContextArgs::new(()).render().unwrap()), ok(""));
}

#[test]
fn test_lazy_args_shown_by_display_and_pretty_debug() {
    let point = Point { x: 1, y: -2 };
    let list = (
        arg(Some("text"), WithDisplay("a\nb")),
        (arg(Some("point"), WithPrettyDebug(&point)), (arg(None, "a\nb"), ())),
    );
    assert_eq!(
        debug_fmt(128, &args(&list.render().unwrap())),
        ok("text: a\nb, point: Point {\n    x: 1,\n    y: -2,\n}, \"a\\nb\"")
    );
}

struct Failing;

impl core::fmt::Debug for Failing {
    fn fmt(&self, _: &mut core::fmt::Formatter<'_>) -> core::fmt::Result {
        Err(core::fmt::Error)
    }
}

impl core::fmt::Display for Failing {
    fn fmt(&self, _: &mut core::fmt::Formatter<'_>) -> core::fmt::Result {
        Err(core::fmt::Error)
    }
}

#[test]
fn test_failing_rendering_is_handed_on() {
    assert_eq!(PreRendered::debug(&Failing), Err(WriteError));
    assert_eq!(PreRendered::pretty_debug(&Failing), Err(WriteError));
    assert_eq!(PreRendered::display(&Failing), Err(WriteError));
    assert_eq!(PreRendered::of(Err(WriteError)), Err(WriteError));
    assert_eq!(PreRendered::of(Ok("x".to_string())), Ok(PreRendered::new("x".to_string())));

    assert!((arg(Some("a"), 1), (arg(Some("b"), Failing), ())).render().is_err());
    assert!((arg(Some("a"), Failing), (arg(Some("b"), 1), ())).render().is_err());
    assert!((arg(None, WithDisplay(Failing)), ()).render().is_err());
    assert!((arg(None, WithPrettyDebug(Failing)), ()).render().is_err());
    assert!(UnwindContextFunc::new("f", (arg(None, Failing), ())).render().is_err());
    assert!(UnwindContextArgs::new((arg(None, Failing), ())).render().is_err());
    assert!(UnwindContextArgs::new((arg(None, NonExhaustiveMarker), ())).render().is_ok());
}

#[test]
fn test_leave_scope_of_a_captured_context() {
    let point = Point { x: 1, y: -2 };
    let data = UnwindContextFunc::new("draw", (arg(Some("point"), &point), ()));
    let at = SourceLocation::new("a.rs", 5, 6);
    let mut settings = ColorSettings::new();
    let plain = "fn draw(point: Point { x: 1, y: -2 })\n    at a.rs:5:6\n";

    let mut out = String::new();
    leave_scope(&data, false, &at, None, &settings, &mut out);
    assert_eq!(out, "");
    leave_scope(&data, true, &at, None, &settings, &mut out);
    assert_eq!(out, plain);

    let mut out = String::new();
    leave_scope(&data, true, &at, Some(test_scheme()), &settings, &mut out);
    assert!(out.starts_with("{FN}fn {FN_NAME}draw{FN_BRACE}({DEF}point: {ITEM}Point"));
    assert!(out.ends_with("\n    at {LOC}a.rs:5:6{DEF}\n"));

    set_colors_enabled(&mut settings, true);
    let mut out = String::new();
    leave_scope(&data, true, &at, None, &settings, &mut out);
    assert!(out.starts_with("\u{1b}[33mfn \u{1b}[93mdraw"));
    set_colors_enabled(&mut settings, false);

    // A value that cannot be rendered leaves nothing behind.
    let failing = UnwindContextFunc::new("f", (arg(Some("a"), 1), (arg(None, Failing), ())));
    let mut out = String::new();
    leave_scope(&failing, true, &at, None, &settings, &mut out);
    assert_eq!(out, "");

    // Over a sink that is flushed: one flush when unwinding, none otherwise.
    let mut out = FixedBufWriter::new(128);
    leave_scope_flushed(&data, false, &at, None, &settings, &mut out);
    assert_eq!((out.as_str(), out.flush_count()), ("", 0));
    leave_scope_flushed(&data, true, &at, None, &settings, &mut out);
    assert_eq!((out.as_str(), out.flush_count()), (plain, 1));
    let mut out = FixedBufWriter::new(128);
    leave_scope_flushed(&failing, true, &at, None, &settings, &mut out);
    assert_eq!((out.as_str(), out.flush_count()), ("", 1));
    let mut out = FixedBufWriter::new(7);
    leave_scope_flushed(&data, true, &at, None, &settings, &mut out);
    assert_eq!((out.as_str(), out.flush_count()), ("fn draw", 1));
}

#[test]
fn test_print_rendered() {
    let at = SourceLocation::new("a.rs", 5, 6);
    let ok: Result<UnwindContextFunc<()>, WriteError> = Ok(UnwindContextFunc::new("f", ()));
    let failed: Result<UnwindContextFunc<()>, WriteError> = Err(WriteError);

    let mut out = String::new();
    print_rendered(&failed, &at, &None, &mut out);
    assert_eq!(out, "");
    print_rendered(&ok, &at, &None, &mut out);
    assert_eq!(out, "fn f()\n    at a.rs:5:6\n");

    let mut out = FixedBufWriter::new(64);
    print_rendered_flushed(&failed, &at, &None, &mut out);
    assert_eq!((out.as_str(), out.flush_count()), ("", 1));
    print_rendered_flushed(&ok, &at, &None, &mut out);
    assert_eq!((out.as_str(), out.flush_count()), ("fn f()\n    at a.rs:5:6\n", 2));
}

#[test]
fn test_contexts_without_outside_values_render_surely() {
    let at = SourceLocation::new("a.rs", 1, 2);
    let settings = ColorSettings::new();

    let markers = (arg(None, NonExhaustiveMarker), (arg(Some("more"), NonExhaustiveMarker), ()));
    let rendered = markers.render().unwrap();
    assert_eq!(rendered.0.name, None);
    assert_eq!(rendered.1 .0.name, Some("more"));
    assert_eq!(debug_fmt(64, &args(&rendered)), ok("..., more: ..."));

    let func = UnwindContextFunc::new("f", ());
    assert_eq!(func.render().unwrap().name, "f");
    let mut out = String::new();
    leave_scope(&func, true, &at, None, &settings, &mut out);
    assert_eq!(out, "fn f()\n    at a.rs:1:2\n");

    let scope = UnwindContextArgs::new(markers);
    let mut out = FixedBufWriter::new(64);
    leave_scope_flushed(&scope, true, &at, None, &settings, &mut out);
    assert_eq!((out.as_str(), out.flush_count()), ("..., more: ...\n    at a.rs:1:2\n", 1));
}
