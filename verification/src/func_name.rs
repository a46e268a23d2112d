//! Function names out of type names.

use vstd::prelude::*;

verus! {

/// `text` ends with `suffix`.
pub open spec fn ends_with(text: Seq<char>, suffix: Seq<char>) -> bool {
    suffix.len() <= text.len() && text.subrange(text.len() - suffix.len(), text.len() as int)
        == suffix
}

/// `text` starts with `prefix`.
pub open spec fn starts_with(text: Seq<char>, prefix: Seq<char>) -> bool {
    prefix.len() <= text.len() && text.subrange(0, prefix.len() as int) == prefix
}

/// `text` without `suffix` at its end, or `text` itself where it does not
/// end with `suffix`.
pub open spec fn without_suffix(text: Seq<char>, suffix: Seq<char>) -> Seq<char> {
    if ends_with(text, suffix) {
        text.subrange(0, text.len() - suffix.len())
    } else {
        text
    }
}

/// `text` without `prefix` at its start, or `text` itself where it does not
/// start with `prefix`.
pub open spec fn without_prefix(text: Seq<char>, prefix: Seq<char>) -> Seq<char> {
    if starts_with(text, prefix) {
        text.subrange(prefix.len() as int, text.len() as int)
    } else {
        text
    }
}

/// The name of a function, out of the type name `subitem` of an item
/// declared in it: the type name without `::Item` and `::{{closure}}` at its
/// end and without the module path and `::` at its start.
pub open spec fn func_name_of(module: Seq<char>, subitem: Seq<char>) -> Seq<char> {
    let name = without_suffix(subitem, "::Item"@);
    let name = without_suffix(name, "::{{closure}}"@);
    let name = without_prefix(name, module);
    without_prefix(name, "::"@)
}

/// Takes `suffix` off the end of `text` with `str::strip_suffix`: the text
/// in front of the suffix, or nothing where `text` does not end with it.
#[verifier::external_body]
fn strip_suffix<'a>(text: &'a str, suffix: &str) -> (rest: Option<&'a str>)
    ensures
        rest is Some <==> ends_with(text@, suffix@),
        rest matches Some(r) ==> r@ == text@.subrange(0, text@.len() - suffix@.len()),
{
    text.strip_suffix(suffix)
}

/// Takes `prefix` off the start of `text` with `str::strip_prefix`: the
/// text behind the prefix, or nothing where `text` does not start with it.
#[verifier::external_body]
fn strip_prefix<'a>(text: &'a str, prefix: &str) -> (rest: Option<&'a str>)
    ensures
        rest is Some <==> starts_with(text@, prefix@),
        rest matches Some(r) ==> r@ == text@.subrange(prefix@.len() as int, text@.len() as int),
{
    text.strip_prefix(prefix)
}

/// The name of a function, out of the path `module` of its module and
/// the type name `subitem` of an item declared in the function.
#[must_use]
pub fn func_name_from_item_type_name(module: &'static str, subitem: &'static str) -> (name:
    &'static str)
    ensures
        name@ == func_name_of(module@, subitem@),
{
    let name = match strip_suffix(subitem, "::Item") {
        Some(rest) => rest,
        None => subitem,
    };
    let name = match strip_suffix(name, "::{{closure}}") {
        Some(rest) => rest,
        None => name,
    };
    let name = match strip_prefix(name, module) {
        Some(rest) => rest,
        None => name,
    };
    let name = match strip_prefix(name, "::") {
        Some(rest) => rest,
        None => name,
    };
    name
}

} // verus!
