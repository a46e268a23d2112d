//! Colour settings that several threads share.

use core::sync::atomic::{AtomicBool, Ordering};
use atomic_ref::AtomicRef;
use vstd::prelude::*;
use crate::color_scheme::AnsiColorScheme;
use crate::set_colors::{
    are_colors_enabled, enable_colors_if_supported, get_default_color_scheme,
    get_default_color_scheme_if_enabled, ColorSettings,
};

verus! {

/// `atomic_ref::AtomicRef`: a cell for a shared reference, or for none,
/// that threads read and replace atomically. Nothing inside it is visible
/// here.
#[verifier::external_type_specification]
#[verifier::external_body]
#[verifier::reject_recursive_types(T)]
pub struct ExAtomicRef<'a, T: 'a>(AtomicRef<'a, T>);

/// Colour settings behind atomic cells: any thread may set and read them
/// through a shared reference, and no reader ever waits.
///
/// What a reader finds is what some thread stored last, so nothing is known
/// of it ahead of time; a snapshot of the settings is a plain value, and
/// what follows from a snapshot is stated there.
pub struct SharedColorSettings {
    enabled: AtomicBool,
    color_scheme: AtomicRef<'static, AnsiColorScheme>,
}

/// Makes an empty cell with `AtomicRef::new`.
#[verifier::external_body]
fn new_scheme_cell() -> (cell: AtomicRef<'static, AnsiColorScheme>) {
    AtomicRef::new(None)
}

/// Reads the cell with `AtomicRef::load`. What is found depends on what
/// other threads stored.
#[verifier::external_body]
fn load_scheme(cell: &AtomicRef<'static, AnsiColorScheme>) -> (scheme: Option<
    &'static AnsiColorScheme,
>) {
    cell.load(Ordering::Acquire)
}

/// Puts `scheme` into the cell with `AtomicRef::store`.
#[verifier::external_body]
fn store_scheme(cell: &AtomicRef<'static, AnsiColorScheme>, scheme: &'static AnsiColorScheme) {
    cell.store(Some(scheme), Ordering::Release)
}

impl SharedColorSettings {
    /// Settings with colours off and no scheme set.
    pub fn new() -> (settings: Self) {
        SharedColorSettings { enabled: AtomicBool::new(false), color_scheme: new_scheme_cell() }
    }

    /// Switches colours on or off, for all threads.
    pub fn set_colors_enabled(&self, enabled: bool) {
        self.enabled.store(enabled, Ordering::Relaxed);
    }

    /// Sets the colour scheme that is used where a guard has none of its
    /// own, for all threads.
    pub fn set_default_color_scheme(&self, color_scheme: &'static AnsiColorScheme) {
        store_scheme(&self.color_scheme, color_scheme);
    }

    /// The settings as they are found now: what the two cells are found to
    /// hold, as `ColorSettings::found` puts it together.
    pub fn snapshot(&self) -> (settings: ColorSettings) {
        let enabled = self.enabled.load(Ordering::Relaxed);
        let color_scheme = load_scheme(&self.color_scheme);
        ColorSettings::found(enabled, color_scheme)
    }

    /// Tells whether colours are found switched on now.
    pub fn are_colors_enabled(&self) -> (enabled: bool) {
        are_colors_enabled(&self.snapshot())
    }

    /// Switches colours on, for all threads, if the terminal behind the
    /// standard error stream supports them.
    pub fn enable_colors_if_supported(&self) {
        let mut settings = ColorSettings::new();
        enable_colors_if_supported(&mut settings);
        if settings.enabled {
            self.set_colors_enabled(true);
        }
    }

    /// The colour scheme found in use now: the one that was set, else the
    /// built-in one.
    pub fn get_default_color_scheme(&self) -> (scheme: AnsiColorScheme) {
        get_default_color_scheme(&self.snapshot())
    }

    /// The colour scheme found in use now if colours are found switched
    /// on, and none if they are off.
    pub fn get_default_color_scheme_if_enabled(&self) -> (scheme: Option<AnsiColorScheme>) {
        get_default_color_scheme_if_enabled(&self.snapshot())
    }
}

} // verus!
