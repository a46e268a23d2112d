//! The colour table that a colourised rendering draws from.

use vstd::prelude::*;

verus! {

/// The styling sequences used by colourised rendering, one for each kind of
/// text.
#[derive(Copy, Clone, Eq, PartialEq, Ord, PartialOrd, Hash, Debug)]
pub struct AnsiColorScheme {
    /// The sequence that ends a styled run.
    pub default: &'static str,
    /// The sequence written before a code location.
    pub location: &'static str,
    /// The sequence written before the `fn` keyword.
    pub fn_keyword: &'static str,
    /// The sequence written before a function name.
    pub func_name: &'static str,
    /// The sequence written before the parentheses of a function.
    pub func_braces: &'static str,
    /// The sequence written before brackets inside a value.
    pub value_braces: &'static str,
    /// The sequence written before identifiers.
    pub ident: &'static str,
    /// The sequence written before names of structs, enums and constants.
    pub item: &'static str,
    /// The sequence written before `true` and `false`.
    pub boolean: &'static str,
    /// The sequence written before numbers.
    pub number: &'static str,
    /// The sequence written before quoted text.
    pub quoted: &'static str,
    /// The sequence written before escaped characters in quoted text.
    pub escaped: &'static str,
}

impl AnsiColorScheme {
    /// Every entry of the scheme is the empty text.
    pub open spec fn is_blank(&self) -> bool {
        &&& self.default@.len() == 0
        &&& self.location@.len() == 0
        &&& self.fn_keyword@.len() == 0
        &&& self.func_name@.len() == 0
        &&& self.func_braces@.len() == 0
        &&& self.value_braces@.len() == 0
        &&& self.ident@.len() == 0
        &&& self.item@.len() == 0
        &&& self.boolean@.len() == 0
        &&& self.number@.len() == 0
        &&& self.quoted@.len() == 0
        &&& self.escaped@.len() == 0
    }
}

/// The built-in scheme: the ANSI codes of the sixteen basic colours.
pub open spec fn builtin_scheme() -> AnsiColorScheme {
    AnsiColorScheme {
        default: "\u{1b}[0m",
        location: "\u{1b}[94m",
        fn_keyword: "\u{1b}[33m",
        func_name: "\u{1b}[93m",
        func_braces: "\u{1b}[0m",
        value_braces: "\u{1b}[0m",
        ident: "\u{1b}[0;33m",
        item: "\u{1b}[0;33m",
        boolean: "\u{1b}[1;93m",
        number: "\u{1b}[0;96m",
        quoted: "\u{1b}[0;32m",
        escaped: "\u{1b}[0;95m",
    }
}

/// The scheme that is used when colours are enabled and no other scheme has
/// been set.
pub fn default_default_color_scheme() -> (scheme: AnsiColorScheme)
    ensures
        scheme == builtin_scheme(),
{
    AnsiColorScheme {
        default: "\u{1b}[0m",
        location: "\u{1b}[94m",
        fn_keyword: "\u{1b}[33m",
        func_name: "\u{1b}[93m",
        func_braces: "\u{1b}[0m",
        value_braces: "\u{1b}[0m",
        ident: "\u{1b}[0;33m",
        item: "\u{1b}[0;33m",
        boolean: "\u{1b}[1;93m",
        number: "\u{1b}[0;96m",
        quoted: "\u{1b}[0;32m",
        escaped: "\u{1b}[0;95m",
    }
}

} // verus!
