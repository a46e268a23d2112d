use std::sync::atomic::{AtomicBool, Ordering};

use unwind_context::{
    default_default_color_scheme, set_colors_enabled, set_default_color_scheme, AnsiColorScheme,
    AnsiColored, ColorSettings, DebugText, FixedBufWriter, FlushSink, PanicDetector,
    SourceLocation, TextSink, UnwindContextArg, UnwindContextFunc, UnwindContextWithFmt,
    UnwindContextWithIo,
};

const FILE: &str = "tests/context.rs";
const MIN_LINE: u32 = 100;
const MAX_LINE: u32 = 200;

fn test_scheme() -> AnsiColorScheme {
    AnsiColorScheme {
        default: "{DEF}",
        location: "{LOC}",
        fn_keyword: "{FN}",
        func_name: "{FN_NAME}",
        func_braces: "{FN_BRACE}",
        value_braces: "{BRACE}",
        ident: "{IDENT}",
        item: "{ITEM}",
        boolean: "{BOOL}",
        number: "{NUM}",
        quoted: "{QUOT}",
        escaped: "{ESC}",
    }
}

fn arg<T>(name: Option<&'static str>, value: T) -> UnwindContextArg<T> {
    UnwindContextArg::new(name, value)
}

fn expect_str(output: &mut &str, value: &str) -> Result<(), ()> {
    if let Some(rest) = output.strip_prefix(value) {
        *output = rest;
        Ok(())
    } else {
        Err(())
    }
}

fn read_until<'a>(output: &mut &'a str, pat: &str) -> Result<&'a str, ()> {
    if let Some((prefix, suffix)) = output.split_once(pat) {
        *output = suffix;
        Ok(prefix)
    } else {
        Err(())
    }
}

fn check_location_part(
    output: &mut &str,
    location_prefix: &str,
    location_suffix: &str,
    expected_file: &str,
    min_line: u32,
    max_line: u32,
) {
    expect_str(output, "    at ").unwrap();
    expect_str(output, location_prefix).unwrap();
    let file = read_until(output, ":").unwrap();
    assert_eq!(file, expected_file);
    let line: u32 = read_until(output, ":").unwrap().parse().unwrap();
    assert!(line > min_line);
    assert!(line < max_line);
    if location_suffix.is_empty() {
        let _column = read_until(output, "\n").unwrap();
    } else {
        let _column = read_until(output, location_suffix).unwrap();
        expect_str(output, "\n").unwrap();
    }
}

#[derive(Clone, Debug)]
struct DummyPanicDetector<'a> {
    is_panicking: &'a AtomicBool,
}

impl PanicDetector for DummyPanicDetector<'_> {
    fn is_panicking(&self) -> bool {
        self.is_panicking.load(Ordering::Relaxed)
    }
}

#[derive(Clone, Copy, Debug)]
struct NeverPanicking;

impl PanicDetector for NeverPanicking {
    fn is_panicking(&self) -> bool {
        false
    }
}

fn func1<W: TextSink, P: Clone + PanicDetector>(
    foo: usize,
    bar: &str,
    writer1: &mut W,
    writer2: &mut W,
    writer3: &mut W,
    panic_detector: P,
    color_scheme: Option<AnsiColorScheme>,
) -> usize {
    let ctx = UnwindContextWithFmt::new(
        UnwindContextFunc::new("func1", (arg(Some("foo"), foo), (arg(Some("bar"), bar), ()))),
        writer1,
        panic_detector.clone(),
        color_scheme,
        SourceLocation::new(FILE, 121, 15),
    );
    let result = func2(
        foo.checked_mul(2).unwrap(),
        &bar[1..],
        writer2,
        writer3,
        panic_detector,
        color_scheme,
    );
    let _ = ctx.exit(&ColorSettings::new());
    result
}

fn func2<W: TextSink, P: Clone + PanicDetector>(
    foo: usize,
    bar: &str,
    writer2: &mut W,
    writer3: &mut W,
    panic_detector: P,
    color_scheme: Option<AnsiColorScheme>,
) -> usize {
    let ctx = UnwindContextWithFmt::new(
        UnwindContextFunc::new("func2", (arg(Some("foo"), foo), (arg(Some("bar"), bar), ()))),
        writer2,
        panic_detector.clone(),
        color_scheme,
        SourceLocation::new(FILE, 146, 15),
    );
    let result =
        func3(foo.checked_mul(3).unwrap(), &bar[1..], writer3, panic_detector, color_scheme);
    let _ = ctx.exit(&ColorSettings::new());
    result
}

fn func3<W: TextSink, P: PanicDetector>(
    foo: usize,
    bar: &str,
    writer3: &mut W,
    panic_detector: P,
    color_scheme: Option<AnsiColorScheme>,
) -> usize {
    let ctx = UnwindContextWithFmt::new(
        UnwindContextFunc::new("func3", (arg(Some("foo"), foo), (arg(Some("bar"), bar), ()))),
        writer3,
        panic_detector,
        color_scheme,
        SourceLocation::new(FILE, 164, 15),
    );
    let result = foo.checked_sub(bar.len()).unwrap();
    let _ = ctx.exit(&ColorSettings::new());
    result
}

fn io_func1<W: FlushSink>(
    foo: usize,
    bar: &str,
    writer1: &mut W,
    writer2: &mut W,
    writer3: &mut W,
) -> usize {
    let ctx = UnwindContextWithIo::new(
        UnwindContextFunc::new("func1", (arg(Some("foo"), foo), (arg(Some("bar"), bar), ()))),
        writer1,
        NeverPanicking,
        None,
        SourceLocation::new(FILE, 178, 15),
    );
    let result = io_func2(foo.checked_mul(2).unwrap(), &bar[1..], writer2, writer3);
    let _ = ctx.exit(&ColorSettings::new());
    result
}

fn io_func2<W: FlushSink>(foo: usize, bar: &str, writer2: &mut W, writer3: &mut W) -> usize {
    let ctx = UnwindContextWithIo::new(
        UnwindContextFunc::new("func2", (arg(Some("foo"), foo), (arg(Some("bar"), bar), ()))),
        writer2,
        NeverPanicking,
        None,
        SourceLocation::new(FILE, 191, 15),
    );
    let result = io_func3(foo.checked_mul(3).unwrap(), &bar[1..], writer3);
    let _ = ctx.exit(&ColorSettings::new());
    result
}

fn io_func3<W: FlushSink>(foo: usize, bar: &str, writer3: &mut W) -> usize {
    let ctx = UnwindContextWithIo::new(
        UnwindContextFunc::new("func3", (arg(Some("foo"), foo), (arg(Some("bar"), bar), ()))),
        writer3,
        NeverPanicking,
        None,
        SourceLocation::new(FILE, 199, 15),
    );
    let result = foo.checked_sub(bar.len()).unwrap();
    let _ = ctx.exit(&ColorSettings::new());
    result
}

#[test]
fn test_unwind_context_without_unwind() {
    let mut stderr1 = FixedBufWriter::new(256);
    let mut stderr2 = FixedBufWriter::new(256);
    let mut stderr3 = FixedBufWriter::new(256);

    let result = io_func1(1000, "abcdef", &mut stderr1, &mut stderr2, &mut stderr3);
    assert_eq!(result, 5996);

    let result = io_func1(1000, "ab", &mut stderr1, &mut stderr2, &mut stderr3);
    assert_eq!(result, 6000);
}

#[test]
fn test_unwind_context_with_fmt_without_unwind() {
    let is_panicking = AtomicBool::new(false);
    let dummy_panic_detector = DummyPanicDetector { is_panicking: &is_panicking };

    let mut writer1 = FixedBufWriter::new(128);
    let mut writer2 = FixedBufWriter::new(128);
    let mut writer3 = FixedBufWriter::new(128);
    let result = func1(
        1000,
        "abcdef",
        &mut writer1,
        &mut writer2,
        &mut writer3,
        dummy_panic_detector.clone(),
        None,
    );
    assert_eq!(result, 5996);
    assert_eq!(writer1.into_string(), "");
    assert_eq!(writer2.into_string(), "");
    assert_eq!(writer3.into_string(), "");

    let mut writer1 = FixedBufWriter::new(128);
    let mut writer2 = FixedBufWriter::new(128);
    let mut writer3 = FixedBufWriter::new(128);
    let result = func1(
        1000,
        "ab",
        &mut writer1,
        &mut writer2,
        &mut writer3,
        dummy_panic_detector.clone(),
        None,
    );
    assert_eq!(result, 6000);
    assert_eq!(writer1.into_string(), "");
    assert_eq!(writer2.into_string(), "");
    assert_eq!(writer3.into_string(), "");

    // Emulate panicking on the first scope guard exit without real panic.

    is_panicking.store(true, Ordering::Relaxed);

    let mut writer1 = FixedBufWriter::new(128);
    let mut writer2 = FixedBufWriter::new(128);
    let mut writer3 = FixedBufWriter::new(128);
    let result = func1(
        1000,
        "ab",
        &mut writer1,
        &mut writer2,
        &mut writer3,
        dummy_panic_detector.clone(),
        None,
    );
    assert_eq!(result, 6000);

    let text = writer1.into_string();
    let output = &mut text.as_str();
    expect_str(output, "fn func1(foo: 1000, bar: \"ab\")\n").unwrap();
    check_location_part(output, "", "", FILE, MIN_LINE, MAX_LINE);
    assert_eq!(*output, "");

    let text = writer2.into_string();
    let output = &mut text.as_str();
    expect_str(output, "fn func2(foo: 2000, bar: \"b\")\n").unwrap();
    check_location_part(output, "", "", FILE, MIN_LINE, MAX_LINE);
    assert_eq!(*output, "");

    let text = writer3.into_string();
    let output = &mut text.as_str();
    expect_str(output, "fn func3(foo: 6000, bar: \"\")\n").unwrap();
    check_location_part(output, "", "", FILE, MIN_LINE, MAX_LINE);
    assert_eq!(*output, "");
}

#[test]
fn test_unwind_context_with_fmt_without_unwind_with_colored_fmt() {
    let is_panicking = AtomicBool::new(false);
    let dummy_panic_detector = DummyPanicDetector { is_panicking: &is_panicking };

    // Emulate panicking on the first scope guard exit without real panic.

    is_panicking.store(true, Ordering::Relaxed);

    let mut writer1 = FixedBufWriter::new(256);
    let mut writer2 = FixedBufWriter::new(256);
    let mut writer3 = FixedBufWriter::new(256);
    let result = func1(
        1000,
        "ab",
        &mut writer1,
        &mut writer2,
        &mut writer3,
        dummy_panic_detector.clone(),
        Some(test_scheme()),
    );
    assert_eq!(result, 6000);

    let text = writer1.into_string();
    let output = &mut text.as_str();
    expect_str(
        output,
        "{FN}fn {FN_NAME}func1{FN_BRACE}({DEF}foo: {NUM}1000{DEF}, bar: \
         {QUOT}\"ab\"{DEF}{FN_BRACE}){DEF}\n",
    )
    .unwrap();
    check_location_part(output, "{LOC}", "{DEF}", FILE, MIN_LINE, MAX_LINE);
    assert_eq!(*output, "");

    let text = writer2.into_string();
    let output = &mut text.as_str();
    expect_str(
        output,
        "{FN}fn {FN_NAME}func2{FN_BRACE}({DEF}foo: {NUM}2000{DEF}, bar: \
         {QUOT}\"b\"{DEF}{FN_BRACE}){DEF}\n",
    )
    .unwrap();
    check_location_part(output, "{LOC}", "{DEF}", FILE, MIN_LINE, MAX_LINE);
    assert_eq!(*output, "");

    let text = writer3.into_string();
    let output = &mut text.as_str();
    expect_str(
        output,
        "{FN}fn {FN_NAME}func3{FN_BRACE}({DEF}foo: {NUM}6000{DEF}, bar: \
         {QUOT}\"\"{DEF}{FN_BRACE}){DEF}\n",
    )
    .unwrap();
    check_location_part(output, "{LOC}", "{DEF}", FILE, MIN_LINE, MAX_LINE);
    assert_eq!(*output, "");
}

#[test]
fn test_unwind_context_with_io_without_unwind() {
    let mut writer1 = FixedBufWriter::new(256);
    let mut writer2 = FixedBufWriter::new(256);
    let mut writer3 = FixedBufWriter::new(256);
    let result = io_func1(1000, "abcdef", &mut writer1, &mut writer2, &mut writer3);
    assert_eq!(result, 5996);
    assert_eq!([writer1.as_str(), writer2.as_str(), writer3.as_str()].concat(), "");
    assert_eq!(writer1.flush_count() + writer2.flush_count() + writer3.flush_count(), 0);

    let mut writer1 = FixedBufWriter::new(256);
    let mut writer2 = FixedBufWriter::new(256);
    let mut writer3 = FixedBufWriter::new(256);
    let result = io_func1(1000, "ab", &mut writer1, &mut writer2, &mut writer3);
    assert_eq!(result, 6000);
    assert_eq!([writer1.as_str(), writer2.as_str(), writer3.as_str()].concat(), "");
    assert_eq!(writer1.flush_count() + writer2.flush_count() + writer3.flush_count(), 0);
}

#[test]
fn test_exact_printed_context() {
    let guard = UnwindContextWithFmt::new(
        UnwindContextFunc::new("func3", (arg(Some("foo"), 6000usize), (arg(Some("bar"), ""), ()))),
        String::new(),
        NeverPanicking,
        None,
        SourceLocation::new("src/main.rs", 12, 34),
    );
    assert_eq!(
        guard.exit_with(true, &ColorSettings::new()),
        "fn func3(foo: 6000, bar: \"\")\n    at src/main.rs:12:34\n"
    );

    let guard = UnwindContextWithIo::new(
        UnwindContextFunc::new(
            "func1",
            (arg(Some("foo"), 1000usize), (arg(Some("bar"), "abcdef"), ())),
        ),
        FixedBufWriter::new(256),
        NeverPanicking,
        Some(test_scheme()),
        SourceLocation::new("src/main.rs", 1, 2),
    );
    assert_eq!(
        guard.exit_with(true, &ColorSettings::new()).into_string(),
        "{FN}fn {FN_NAME}func1{FN_BRACE}({DEF}foo: {NUM}1000{DEF}, bar: \
         {QUOT}\"abcdef\"{DEF}{FN_BRACE}){DEF}\n    at {LOC}src/main.rs:1:2{DEF}\n"
    );
}

#[test]
fn test_guard_leaves_writer_alone_without_unwind() {
    let guard = UnwindContextWithFmt::new(
        UnwindContextFunc::new("f", (arg(None, 1u8), ())),
        "before".to_string(),
        NeverPanicking,
        Some(test_scheme()),
        SourceLocation::new("a.rs", 1, 1),
    );
    assert_eq!(guard.writer_ref(), "before");
    assert_eq!(guard.exit(&ColorSettings::new()), "before");

    let mut before = FixedBufWriter::new(64);
    before.write_str("before").unwrap();
    let guard = UnwindContextWithIo::new(
        UnwindContextFunc::new("f", (arg(None, 1u8), ())),
        before,
        NeverPanicking,
        None,
        SourceLocation::new("a.rs", 1, 1),
    );
    let writer = guard.exit_with(false, &ColorSettings::new());
    assert_eq!(writer.as_str(), "before");
    assert_eq!(writer.flush_count(), 0);
}

#[test]
fn test_print_does_not_disarm() {
    let mut guard = UnwindContextWithFmt::new(
        UnwindContextFunc::new("f", ()),
        String::new(),
        NeverPanicking,
        None,
        SourceLocation::new("a.rs", 7, 8),
    );
    guard.print(&ColorSettings::new());
    assert_eq!(guard.writer_ref(), "fn f()\n    at a.rs:7:8\n");
    guard.print(&ColorSettings::new());
    assert_eq!(guard.exit_with(true, &ColorSettings::new()), "fn f()\n    at a.rs:7:8\n".repeat(3));
}

#[test]
fn test_guard_swallows_write_failure() {
    let full = "fn f()\n    at a.rs:7:8\n";
    for capacity in 0..full.len() {
        let guard = UnwindContextWithFmt::new(
            UnwindContextFunc::new("f", ()),
            FixedBufWriter::new(capacity),
            NeverPanicking,
            None,
            SourceLocation::new("a.rs", 7, 8),
        );
        let writer = guard.exit_with(true, &ColorSettings::new());
        assert!(full.starts_with(writer.as_str()));
        assert!(writer.as_str().len() < full.len());
    }
}

#[test]
fn test_nested_guards_print_once_each() {
    let is_panicking = AtomicBool::new(false);
    let detector = DummyPanicDetector { is_panicking: &is_panicking };
    let at = SourceLocation::new("a.rs", 1, 1);
    let mut order = Vec::new();

    let outer = UnwindContextWithFmt::new(
        UnwindContextFunc::new("outer", ()),
        String::new(),
        detector.clone(),
        None,
        at,
    );
    let middle = UnwindContextWithFmt::new(
        UnwindContextFunc::new("middle", ()),
        String::new(),
        detector.clone(),
        None,
        at,
    );
    let inner = UnwindContextWithFmt::new(
        UnwindContextFunc::new("inner", ()),
        String::new(),
        detector.clone(),
        None,
        at,
    );

    // The innermost scope fails, and the failure is caught before the
    // outermost scope is left.
    is_panicking.store(true, Ordering::Relaxed);
    order.push(inner.exit(&ColorSettings::new()));
    order.push(middle.exit(&ColorSettings::new()));
    is_panicking.store(false, Ordering::Relaxed);
    order.push(outer.exit(&ColorSettings::new()));

    assert_eq!(order, ["fn inner()\n    at a.rs:1:1\n", "fn middle()\n    at a.rs:1:1\n", ""]);
}

#[test]
fn test_blank_scheme_prints_as_without_scheme() {
    let blank = AnsiColorScheme {
        default: "",
        location: "",
        fn_keyword: "",
        func_name: "",
        func_braces: "",
        value_braces: "",
        ident: "",
        item: "",
        boolean: "",
        number: "",
        quoted: "",
        escaped: "",
    };
    let print = |scheme: Option<AnsiColorScheme>| {
        UnwindContextWithFmt::new(
            UnwindContextFunc::new(
                "f",
                (arg(Some("a"), "x\"y"), (arg(None, -3i8), (arg(Some("ok"), true), ()))),
            ),
            String::new(),
            NeverPanicking,
            scheme,
            SourceLocation::new("dir/file.rs", 10, 4),
        )
        .exit_with(true, &ColorSettings::new())
    };
    assert_eq!(print(None), "fn f(a: \"x\\\"y\", -3, ok: true)\n    at dir/file.rs:10:4\n");
    assert_eq!(print(Some(blank)), print(None));
}

// The chain of the three functions with failures that are passed up as
// `None`: the scope that fails raises the flag that the detector reads, as a
// panic would, and each scope is left on the way out.

fn failing1(
    foo: usize,
    bar: &str,
    writers: &mut [String; 3],
    is_panicking: &AtomicBool,
) -> Option<usize> {
    let (writer1, rest) = writers.split_first_mut().unwrap();
    let ctx = UnwindContextWithFmt::new(
        UnwindContextFunc::new("func1", (arg(Some("foo"), foo), (arg(Some("bar"), bar), ()))),
        writer1,
        DummyPanicDetector { is_panicking },
        None,
        SourceLocation::new(FILE, 121, 15),
    );
    let result = match (foo.checked_mul(2), bar.get(1..)) {
        (Some(foo), Some(bar)) => failing2(foo, bar, rest, is_panicking),
        _ => {
            is_panicking.store(true, Ordering::Relaxed);
            None
        },
    };
    let _ = ctx.exit(&ColorSettings::new());
    result
}

fn failing2(
    foo: usize,
    bar: &str,
    writers: &mut [String],
    is_panicking: &AtomicBool,
) -> Option<usize> {
    let (writer2, rest) = writers.split_first_mut().unwrap();
    let ctx = UnwindContextWithFmt::new(
        UnwindContextFunc::new("func2", (arg(Some("foo"), foo), (arg(Some("bar"), bar), ()))),
        writer2,
        DummyPanicDetector { is_panicking },
        None,
        SourceLocation::new(FILE, 146, 15),
    );
    let result = match (foo.checked_mul(3), bar.get(1..)) {
        (Some(foo), Some(bar)) => failing3(foo, bar, &mut rest[0], is_panicking),
        _ => {
            is_panicking.store(true, Ordering::Relaxed);
            None
        },
    };
    let _ = ctx.exit(&ColorSettings::new());
    result
}

fn failing3(
    foo: usize,
    bar: &str,
    writer3: &mut String,
    is_panicking: &AtomicBool,
) -> Option<usize> {
    let ctx = UnwindContextWithFmt::new(
        UnwindContextFunc::new("func3", (arg(Some("foo"), foo), (arg(Some("bar"), bar), ()))),
        writer3,
        DummyPanicDetector { is_panicking },
        None,
        SourceLocation::new(FILE, 164, 15),
    );
    let result = foo.checked_sub(bar.len());
    if result.is_none() {
        is_panicking.store(true, Ordering::Relaxed);
    }
    let _ = ctx.exit(&ColorSettings::new());
    result
}

fn run_failing(foo: usize, bar: &str) -> (Option<usize>, [String; 3]) {
    let is_panicking = AtomicBool::new(false);
    let mut writers = [String::new(), String::new(), String::new()];
    let result = failing1(foo, bar, &mut writers, &is_panicking);
    (result, writers)
}

fn check_printed(text: &str, first_line: &str) {
    let output = &mut &*text;
    expect_str(output, first_line).unwrap();
    check_location_part(output, "", "", FILE, MIN_LINE, MAX_LINE);
    assert_eq!(*output, "");
}

#[test]
fn test_guards_print_from_the_failing_scope_outwards() {
    let (result, writers) = run_failing(1000, "abcdef");
    assert_eq!(result, Some(5996));
    assert_eq!(writers.concat(), "");

    let (result, [writer1, writer2, writer3]) = run_failing(1000, "a");
    assert_eq!(result, None);
    check_printed(&writer2, "fn func2(foo: 2000, bar: \"\")\n");
    check_printed(&writer1, "fn func1(foo: 1000, bar: \"a\")\n");
    assert_eq!(writer3, "");

    let (result, [writer1, writer2, writer3]) = run_failing(1000, "");
    assert_eq!(result, None);
    check_printed(&writer1, "fn func1(foo: 1000, bar: \"\")\n");
    assert_eq!(writer2, "");
    assert_eq!(writer3, "");

    let (result, [writer1, writer2, writer3]) = run_failing(0, "abcdef");
    assert_eq!(result, None);
    check_printed(&writer3, "fn func3(foo: 0, bar: \"cdef\")\n");
    check_printed(&writer2, "fn func2(foo: 0, bar: \"bcdef\")\n");
    check_printed(&writer1, "fn func1(foo: 0, bar: \"abcdef\")\n");
}

#[derive(Clone, Copy, Debug)]
struct AlwaysPanicking;

impl PanicDetector for AlwaysPanicking {
    fn is_panicking(&self) -> bool {
        true
    }
}

#[test]
fn test_detector_behind_a_reference() {
    let yes = AlwaysPanicking;
    let no = NeverPanicking;
    assert!(PanicDetector::is_panicking(&&yes));
    assert!(!PanicDetector::is_panicking(&&no));
    assert!(PanicDetector::is_panicking(&&&yes));

    let guard = UnwindContextWithFmt::new(
        UnwindContextFunc::new("f", ()),
        String::new(),
        &yes,
        None,
        SourceLocation::new("a.rs", 1, 2),
    );
    assert_eq!(guard.exit(&ColorSettings::new()), "fn f()\n    at a.rs:1:2\n");
    let guard = UnwindContextWithFmt::new(
        UnwindContextFunc::new("f", ()),
        String::new(),
        &no,
        None,
        SourceLocation::new("a.rs", 1, 2),
    );
    assert_eq!(guard.exit(&ColorSettings::new()), "");
}

fn rendered<T: DebugText>(value: &T) -> String {
    let mut text = String::new();
    value.fmt(&mut text).unwrap();
    text
}

#[test]
fn test_guard_without_scheme_follows_the_settings() {
    let data = || UnwindContextFunc::new("f", (arg(Some("n"), 7u8), ()));
    let at = SourceLocation::new("a.rs", 3, 4);
    let guard = |own: Option<AnsiColorScheme>| {
        UnwindContextWithFmt::new(data(), String::new(), NeverPanicking, own, at)
    };
    let plain = "fn f(n: 7)\n    at a.rs:3:4\n";
    let colored = |scheme: AnsiColorScheme| {
        [
            rendered(&AnsiColored::new(data(), scheme)).as_str(),
            "\n    at ",
            scheme.location,
            "a.rs:3:4",
            scheme.default,
            "\n",
        ]
        .concat()
    };

    // Colours are off: a guard without a scheme prints without colours.
    let mut settings = ColorSettings::new();
    assert_eq!(guard(None).exit_with(true, &settings), plain);
    assert_eq!(guard(Some(test_scheme())).exit_with(true, &settings), colored(test_scheme()));

    // Colours are on: it prints in the scheme in use, the built-in one at
    // first and then the one that was set.
    set_colors_enabled(&mut settings, true);
    assert_eq!(
        guard(None).exit_with(true, &settings),
        colored(default_default_color_scheme())
    );
    assert_eq!(
        guard(None).exit_with(true, &settings),
        [
            "\u{1b}[33mfn \u{1b}[93mf\u{1b}[0m(\u{1b}[0mn: \u{1b}[0;96m7\u{1b}[0m",
            "\u{1b}[0m)\u{1b}[0m\n    at \u{1b}[94ma.rs:3:4\u{1b}[0m\n"
        ]
        .concat()
    );
    set_default_color_scheme(&mut settings, test_scheme());
    assert_eq!(guard(None).exit_with(true, &settings), colored(test_scheme()));
    let mut printing = guard(None);
    printing.print(&settings);
    printing.leave(true, &settings);
    printing.leave(false, &settings);
    assert_eq!(printing.exit(&settings), colored(test_scheme()).repeat(2));

    // A scheme of the guard's own comes first.
    assert_eq!(
        guard(Some(default_default_color_scheme())).exit_with(true, &settings),
        colored(default_default_color_scheme())
    );

    // Colours are off again.
    set_colors_enabled(&mut settings, false);
    assert_eq!(guard(None).exit_with(true, &settings), plain);
}

#[test]
fn test_io_guard_flushes_once_after_printing() {
    let guard = |capacity: usize| {
        UnwindContextWithIo::new(
            UnwindContextFunc::new("f", ()),
            FixedBufWriter::new(capacity),
            NeverPanicking,
            None,
            SourceLocation::new("a.rs", 7, 8),
        )
    };
    let settings = ColorSettings::new();

    let writer = guard(64).exit_with(true, &settings);
    assert_eq!(writer.as_str(), "fn f()\n    at a.rs:7:8\n");
    assert_eq!(writer.flush_count(), 1);

    // The writer is flushed also when a write failed.
    let writer = guard(10).exit_with(true, &settings);
    assert_eq!(writer.as_str(), "fn f()");
    assert_eq!(writer.flush_count(), 1);

    // Nothing is written and nothing is flushed without an unwind.
    let writer = guard(64).exit_with(false, &settings);
    assert_eq!(writer.as_str(), "");
    assert_eq!(writer.flush_count(), 0);
    let writer = guard(64).exit(&settings);
    assert_eq!(writer.flush_count(), 0);

    // Each print flushes once.
    let mut printing = guard(64);
    printing.print(&settings);
    assert_eq!(printing.writer_ref().flush_count(), 1);
    printing.leave(false, &settings);
    assert_eq!(printing.writer_ref().flush_count(), 1);
    printing.leave(true, &settings);
    assert_eq!(printing.writer_ref().flush_count(), 2);
    assert_eq!(printing.writer_ref().as_str(), "fn f()\n    at a.rs:7:8\n".repeat(2));

    // The guard over a writer without flushes leaves the count alone.
    let guard = UnwindContextWithFmt::new(
        UnwindContextFunc::new("f", ()),
        FixedBufWriter::new(64),
        NeverPanicking,
        None,
        SourceLocation::new("a.rs", 7, 8),
    );
    assert_eq!(guard.exit_with(true, &settings).flush_count(), 0);
}
