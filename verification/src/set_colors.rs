//! The colour settings of a process: whether contexts are printed in
//! colours, and in which.

use vstd::prelude::*;
use crate::color_scheme::{default_default_color_scheme, AnsiColorScheme};

verus! {

/// The colour settings: a switch, and the colour scheme that was set, if
/// any. Colours start switched off, with no scheme set.
#[derive(Copy, Clone, Debug)]
pub struct ColorSettings {
    /// Whether contexts are printed in colours.
    pub enabled: bool,
    /// The scheme that was set in place of the built-in one, if any.
    pub color_scheme: Option<AnsiColorScheme>,
}

/// What a terminal can show, as colour detection reports it.
#[derive(Copy, Clone, Debug)]
pub struct ColorSupport {
    /// The sixteen basic colours.
    pub has_basic: bool,
    /// The palette of 256 colours.
    pub has_256: bool,
    /// Sixteen million colours.
    pub has_16m: bool,
}

impl ColorSettings {
    /// The settings of a fresh process: colours off, no scheme set.
    pub fn new() -> (settings: Self)
        ensures
            !settings.enabled,
            settings.color_scheme is None,
    {
        ColorSettings { enabled: false, color_scheme: None }
    }

    /// The settings that were found: the switch as it was found, and a copy
    /// of the scheme that was found set, if any.
    pub fn found(enabled: bool, color_scheme: Option<&AnsiColorScheme>) -> (settings: Self)
        ensures
            settings.enabled == enabled,
            settings.color_scheme == match color_scheme {
                Some(scheme) => Some(*scheme),
                None => None,
            },
    {
        let color_scheme = match color_scheme {
            Some(scheme) => Some(*scheme),
            None => None,
        };
        ColorSettings { enabled, color_scheme }
    }
}

/// Asks `supports_color::on` what the terminal behind the standard error
/// stream can show. The answer depends on the environment, so nothing is
/// known of it but how its parts hang together: where there is any support
/// the basic colours are supported, and sixteen million colours come with
/// the palette of 256.
#[verifier::external_body]
fn stderr_color_support() -> (support: Option<ColorSupport>)
    ensures
        support matches Some(s) ==> s.has_basic && (s.has_16m ==> s.has_256),
{
    match supports_color::on(supports_color::Stream::Stderr) {
        Some(level) => Some(
            ColorSupport {
                has_basic: level.has_basic,
                has_256: level.has_256,
                has_16m: level.has_16m,
            },
        ),
        None => None,
    }
}

/// Switches colours on or off. The scheme stays.
pub fn set_colors_enabled(settings: &mut ColorSettings, enabled: bool)
    ensures
        final(settings).enabled == enabled,
        final(settings).color_scheme == old(settings).color_scheme,
{
    settings.enabled = enabled;
}

/// Tells whether colours are switched on.
pub fn are_colors_enabled(settings: &ColorSettings) -> (enabled: bool)
    ensures
        enabled == settings.enabled,
{
    settings.enabled
}

/// Switches colours on if `support` tells of any colour support, and
/// leaves the settings as they are if not.
pub fn enable_colors_if(settings: &mut ColorSettings, support: Option<ColorSupport>)
    ensures
        final(settings).enabled == (old(settings).enabled || support is Some),
        final(settings).color_scheme == old(settings).color_scheme,
{
    if support.is_some() {
        set_colors_enabled(settings, true);
    }
}

/// Switches colours on if the terminal behind the standard error stream
/// supports them. Colours that were on stay on, and the scheme stays.
pub fn enable_colors_if_supported(settings: &mut ColorSettings)
    ensures
        old(settings).enabled ==> final(settings).enabled,
        final(settings).color_scheme == old(settings).color_scheme,
{
    let support = stderr_color_support();
    enable_colors_if(settings, support);
}

/// Sets the colour scheme that is used where a guard has none of its own.
/// The switch stays.
pub fn set_default_color_scheme(settings: &mut ColorSettings, color_scheme: AnsiColorScheme)
    ensures
        final(settings).color_scheme == Some(color_scheme),
        final(settings).enabled == old(settings).enabled,
{
    settings.color_scheme = Some(color_scheme);
}

/// The colour scheme in use: the one that was set, else the built-in one.
fn get_default_ansi_color_scheme_impl(settings: &ColorSettings) -> (scheme: AnsiColorScheme)
    ensures
        settings.color_scheme matches Some(set) ==> scheme == set,
        settings.color_scheme is None ==> scheme == crate::color_scheme::builtin_scheme(),
{
    match settings.color_scheme {
        Some(scheme) => scheme,
        None => default_default_color_scheme(),
    }
}

/// The colour scheme in use: the one that was set, else the built-in one.
pub fn get_default_color_scheme(settings: &ColorSettings) -> (scheme: AnsiColorScheme)
    ensures
        settings.color_scheme matches Some(set) ==> scheme == set,
        settings.color_scheme is None ==> scheme == crate::color_scheme::builtin_scheme(),
{
    get_default_ansi_color_scheme_impl(settings)
}

/// The colour scheme in use if colours are switched on, and none if they
/// are off.
pub fn get_default_color_scheme_if_enabled(settings: &ColorSettings) -> (scheme: Option<
    AnsiColorScheme,
>)
    ensures
        scheme is Some <==> settings.enabled,
        settings.enabled && settings.color_scheme is Some ==> scheme == settings.color_scheme,
        settings.enabled && settings.color_scheme is None ==> scheme == Some(
            crate::color_scheme::builtin_scheme(),
        ),
{
    if are_colors_enabled(settings) {
        Some(get_default_color_scheme(settings))
    } else {
        None
    }
}

/// The colour scheme that a guard prints with: its own if it was given
/// one; else the scheme in use if colours are switched on; else none.
pub open spec fn resolved_color_scheme(
    own: Option<AnsiColorScheme>,
    settings: ColorSettings,
) -> Option<AnsiColorScheme> {
    match own {
        Some(scheme) => Some(scheme),
        None => if settings.enabled {
            match settings.color_scheme {
                Some(scheme) => Some(scheme),
                None => Some(crate::color_scheme::builtin_scheme()),
            }
        } else {
            None
        },
    }
}

/// The colour scheme that a guard prints with: its own if it was given
/// one; else the scheme in use if colours are switched on; else none.
pub fn resolve_color_scheme(
    own: Option<AnsiColorScheme>,
    settings: &ColorSettings,
) -> (scheme: Option<AnsiColorScheme>)
    ensures
        scheme == resolved_color_scheme(own, *settings),
{
    match own {
        Some(scheme) => Some(scheme),
        None => get_default_color_scheme_if_enabled(settings),
    }
}

} // verus!
