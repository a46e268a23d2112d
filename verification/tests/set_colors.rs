use unwind_context::{
    are_colors_enabled, default_default_color_scheme, enable_colors_if,
    enable_colors_if_supported, get_default_color_scheme,
    get_default_color_scheme_if_enabled, resolve_color_scheme, set_colors_enabled,
    set_default_color_scheme, AnsiColorScheme, ColorSettings, ColorSupport, FixedBufWriter,
    PanicDetector, SharedColorSettings, SourceLocation, UnwindContextArg, UnwindContextArgs,
    UnwindContextWithFmt,
};

fn test_scheme() -> AnsiColorScheme {
    AnsiColorScheme {
        default: "{DEF}",
        location: "{LOC}",
        fn_keyword: "{FN}",
        func_name: "{FN_NAME}",
        func_braces: "{FN_BRACE}",
        value_braces: "{BRACE}",
        ident: "{IDENT}",
        item: "{ITEM}",
        boolean: "{BOOL}",
        number: "{NUM}",
        quoted: "{QUOT}",
        escaped: "{ESC}",
    }
}

#[derive(Clone, Copy, Debug)]
struct NeverPanicking;

impl PanicDetector for NeverPanicking {
    fn is_panicking(&self) -> bool {
        false
    }
}

fn print_with(own: Option<AnsiColorScheme>, settings: &ColorSettings) -> String {
    let foo = 123;
    let bar = "BAR";
    let mut writer = FixedBufWriter::new(128);
    let mut ctx = UnwindContextWithFmt::new(
        UnwindContextArgs::new((
            UnwindContextArg::new(Some("foo"), foo),
            (UnwindContextArg::new(Some("bar"), bar), ()),
        )),
        &mut writer,
        NeverPanicking,
        own,
        SourceLocation::new("tests/set_colors.rs", 40, 19),
    );
    ctx.print(settings);
    let _ = ctx.exit(settings);
    writer.into_string()
}

#[test]
fn test_set_ansi_colors_enabled() {
    let mut settings = ColorSettings::new();

    assert!(!are_colors_enabled(&settings));

    // Colors are disabled by default.
    assert!(print_with(None, &settings).starts_with("foo: 123, bar: \"BAR\"\n    at "));

    // Colors are used if local color scheme if specified.
    assert!(print_with(Some(test_scheme()), &settings)
        .starts_with("foo: {NUM}123{DEF}, bar: {QUOT}\"BAR\"{DEF}\n    at {LOC}"));

    set_colors_enabled(&mut settings, true);
    assert!(are_colors_enabled(&settings));

    // The default color scheme is used if colors are enabled globally.
    assert!(print_with(None, &settings).starts_with(
        "foo: \u{1b}[0;96m123\u{1b}[0m, bar: \u{1b}[0;32m\"BAR\"\u{1b}[0m\n    at \u{1b}[94m"
    ));

    // The local color scheme overrides the global one is used if specified.
    assert!(are_colors_enabled(&settings));
    assert!(print_with(Some(test_scheme()), &settings)
        .starts_with("foo: {NUM}123{DEF}, bar: {QUOT}\"BAR\"{DEF}\n    at {LOC}"));

    set_colors_enabled(&mut settings, false);
    assert!(!are_colors_enabled(&settings));

    // When colors are disabled, it no longer uses any color scheme.
    assert!(print_with(None, &settings).starts_with("foo: 123, bar: \"BAR\"\n    at "));
}

#[test]
fn test_set_default_ansi_color_scheme() {
    let mut settings = ColorSettings::new();

    set_colors_enabled(&mut settings, true);
    assert!(are_colors_enabled(&settings));

    // The default color scheme is used if colors are enabled globally.
    assert!(print_with(None, &settings).starts_with(
        &[
            "foo: \u{1b}[0;96m123",
            "\u{1b}[0m, bar: \u{1b}[0;32m\"BAR\"",
            "\u{1b}[0m\n    at \u{1b}[94m"
        ]
        .concat()
    ));

    set_default_color_scheme(&mut settings, test_scheme());

    // The default color scheme can be changed.
    assert!(are_colors_enabled(&settings));
    assert!(print_with(None, &settings)
        .starts_with("foo: {NUM}123{DEF}, bar: {QUOT}\"BAR\"{DEF}\n    at {LOC}"));

    set_default_color_scheme(&mut settings, default_default_color_scheme());

    // The default color scheme can be changed.
    assert!(are_colors_enabled(&settings));
    assert!(print_with(None, &settings).starts_with(
        &[
            "foo: \u{1b}[0;96m123",
            "\u{1b}[0m, bar: \u{1b}[0;32m\"BAR\"",
            "\u{1b}[0m\n    at \u{1b}[94m"
        ]
        .concat()
    ));

    set_colors_enabled(&mut settings, false);
    assert!(!are_colors_enabled(&settings));
}

#[test]
fn test_default_scheme_getters() {
    let mut settings = ColorSettings::new();
    assert_eq!(get_default_color_scheme(&settings), default_default_color_scheme());
    assert_eq!(get_default_color_scheme_if_enabled(&settings), None);
    assert_eq!(resolve_color_scheme(None, &settings), None);
    assert_eq!(resolve_color_scheme(Some(test_scheme()), &settings), Some(test_scheme()));

    set_default_color_scheme(&mut settings, test_scheme());
    assert!(!are_colors_enabled(&settings));
    assert_eq!(get_default_color_scheme(&settings), test_scheme());
    assert_eq!(get_default_color_scheme_if_enabled(&settings), None);

    set_colors_enabled(&mut settings, true);
    assert_eq!(get_default_color_scheme_if_enabled(&settings), Some(test_scheme()));
    assert_eq!(resolve_color_scheme(None, &settings), Some(test_scheme()));
    assert_eq!(
        resolve_color_scheme(Some(default_default_color_scheme()), &settings),
        Some(default_default_color_scheme())
    );
    assert_eq!(default_default_color_scheme().number, "\u{1b}[0;96m");
    assert_eq!(default_default_color_scheme().default, "\u{1b}[0m");
}

#[test]
fn test_enable_colors_if() {
    let support = ColorSupport { has_basic: true, has_256: false, has_16m: false };

    let mut settings = ColorSettings::new();
    enable_colors_if(&mut settings, None);
    assert!(!are_colors_enabled(&settings));
    enable_colors_if(&mut settings, Some(support));
    assert!(are_colors_enabled(&settings));
    enable_colors_if(&mut settings, None);
    assert!(are_colors_enabled(&settings));

    let mut settings = ColorSettings::new();
    set_default_color_scheme(&mut settings, test_scheme());
    set_colors_enabled(&mut settings, true);
    enable_colors_if_supported(&mut settings);
    assert!(are_colors_enabled(&settings));
    assert_eq!(get_default_color_scheme(&settings), test_scheme());
}

#[test]
fn test_shared_settings() {
    let shared = SharedColorSettings::new();
    assert!(!are_colors_enabled(&shared.snapshot()));
    assert_eq!(shared.snapshot().color_scheme, None);
    assert_eq!(get_default_color_scheme_if_enabled(&shared.snapshot()), None);

    shared.set_colors_enabled(true);
    assert!(are_colors_enabled(&shared.snapshot()));
    assert_eq!(
        get_default_color_scheme_if_enabled(&shared.snapshot()),
        Some(default_default_color_scheme())
    );

    let scheme: &'static AnsiColorScheme = Box::leak(Box::new(test_scheme()));
    shared.set_default_color_scheme(scheme);
    assert_eq!(shared.snapshot().color_scheme, Some(test_scheme()));
    assert_eq!(get_default_color_scheme_if_enabled(&shared.snapshot()), Some(test_scheme()));

    let alias = &shared;
    alias.set_colors_enabled(false);
    assert!(!are_colors_enabled(&shared.snapshot()));
    assert_eq!(get_default_color_scheme(&shared.snapshot()), test_scheme());
}

#[test]
fn test_settings_found() {
    let scheme = test_scheme();
    let settings = ColorSettings::found(true, Some(&scheme));
    assert!(settings.enabled);
    assert_eq!(settings.color_scheme, Some(test_scheme()));
    assert_eq!(get_default_color_scheme_if_enabled(&settings), Some(test_scheme()));

    let settings = ColorSettings::found(false, None);
    assert!(!settings.enabled);
    assert_eq!(settings.color_scheme, None);
    assert_eq!(get_default_color_scheme(&settings), default_default_color_scheme());
}
