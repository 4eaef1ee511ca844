//! Names of enum variants on the wire. The provider writes them in
//! kebab-case; the typed side writes them in upper camel case, and prints a
//! value as the type's name, `::` and the variant's name.

use crate::text::{chars_of, matches_at, occurs_at};
use vstd::prelude::*;
use vstd::string::StrSliceExecFns;

verus! {

/// The kebab-case form of a text.
pub uninterp spec fn kebab_case(s: Seq<char>) -> Seq<char>;

/// The upper-camel-case form of a text.
pub uninterp spec fn upper_camel_case(s: Seq<char>) -> Seq<char>;

/// Converts `s` to kebab-case.
///
/// Trusted: stands for `heck::ToKebabCase::to_kebab_case` on `str`, whose
/// result is a function of the text alone.
#[verifier::external_body]
fn to_kebab_case(s: &str) -> (r: String)
    ensures
        r@ == kebab_case(s@),
{
    heck::ToKebabCase::to_kebab_case(s)
}

/// Converts `s` to upper camel case.
///
/// Trusted: stands for the text that `heck::AsUpperCamelCase` displays,
/// which is a function of the text alone.
#[verifier::external_body]
fn to_upper_camel_case(s: &str) -> (r: String)
    ensures
        r@ == upper_camel_case(s@),
{
    heck::AsUpperCamelCase(s).to_string()
}

/// What separates a type's name from a variant's name in a printed value.
pub const PATH_SEPARATOR: &'static str = "::";

/// The variant's name in the printed value `printed` of the type named
/// `owner`: what follows the type's name and the separator, where
/// `printed` opens with both.
pub open spec fn printed_variant(owner: Seq<char>, printed: Seq<char>) -> Option<Seq<char>> {
    let lead = owner + PATH_SEPARATOR@;
    if occurs_at(printed, lead, 0) {
        Some(printed.skip(lead.len() as int))
    } else {
        None
    }
}

/// Takes the variant's name out of a printed value of the type named
/// `owner`.
pub fn variant_of<'a>(owner: &str, printed: &'a str) -> (variant: Option<&'a str>)
    ensures
        variant is Some <==> printed_variant(owner@, printed@) is Some,
        variant matches Some(v) ==> printed_variant(owner@, printed@) == Some(v@),
{
    let text = chars_of(printed);
    let mut lead = chars_of(owner);
    let mut separator = chars_of(PATH_SEPARATOR);
    lead.append(&mut separator);
    assert(lead@ == owner@ + PATH_SEPARATOR@);
    if matches_at(text.as_slice(), lead.as_slice(), 0) {
        let variant = printed.substring_char(lead.len(), text.len());
        assert(variant@ == printed@.skip(lead@.len() as int));
        Some(variant)
    } else {
        None
    }
}

/// The wire name of the value that the type named `owner` prints as
/// `printed`: its variant's name in kebab-case.
pub fn wire_name(owner: &str, printed: &str) -> (name: Option<String>)
    ensures
        name is Some <==> printed_variant(owner@, printed@) is Some,
        name matches Some(n) ==> n@ == kebab_case(printed_variant(owner@, printed@)->0),
{
    match variant_of(owner, printed) {
        Some(variant) => Some(to_kebab_case(variant)),
        None => None,
    }
}

/// The variant's name that the wire name `wire` stands for.
pub fn variant_name(wire: &str) -> (name: String)
    ensures
        name@ == upper_camel_case(wire@),
{
    to_upper_camel_case(wire)
}

} // verus!
