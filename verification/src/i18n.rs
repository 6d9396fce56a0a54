//! Access to the message catalog.
//!
//! What a catalog lookup returns depends on the locale and on the catalogs
//! installed on the machine, so nothing is promised of the translated text;
//! the functions of the library that need a translation take it from here
//! and state how they use whatever came back.

use vstd::prelude::*;

verus! {

/// True when `s` holds a NUL character, which the catalog functions refuse.
pub open spec fn has_nul(s: Seq<char>) -> bool {
    exists|i: int| 0 <= i < s.len() && s[i] == '\0'
}

/// `text` came back from a lookup of `msgid` in the message catalog. The
/// relation ties a text to the message it was looked up for and says nothing
/// more: the catalog and the locale decide the text, so two lookups of one
/// message need not agree, and nothing here says which text a lookup gives.
pub uninterp spec fn catalog_text(msgid: Seq<char>, text: Seq<char>) -> bool;

/// `text` came back from a lookup of the message with forms `singular` and
/// `plural` for the count `n` in the message catalog. As for `catalog_text`,
/// nothing more is said of the text.
pub uninterp spec fn catalog_plural_text(
    singular: Seq<char>,
    plural: Seq<char>,
    n: u32,
    text: Seq<char>,
) -> bool;

/// `text` is what `tr` gives for `msgid`: `msgid` itself when it holds a NUL
/// character, else a text the catalog gave for it.
pub open spec fn translated(msgid: Seq<char>, text: Seq<char>) -> bool {
    if has_nul(msgid) {
        text == msgid
    } else {
        catalog_text(msgid, text)
    }
}

/// `text` is what `tr_plural` gives for the forms `singular` and `plural`
/// and the count `n`.
pub open spec fn translated_plural(singular: Seq<char>, plural: Seq<char>, n: u32, text: Seq<char>) -> bool {
    if has_nul(singular) || has_nul(plural) {
        text == (if n == 1 {
            singular
        } else {
            plural
        })
    } else {
        catalog_plural_text(singular, plural, n, text)
    }
}

/// Calls `gettextrs::gettext`, which looks `msgid` up in the current text
/// domain and returns the translation, or `msgid` itself when there is none.
/// The contract only ties the result to `msgid` as a catalog text; which
/// text comes back depends on the locale and is not stated. The call panics
/// on a NUL in `msgid` (excluded here) and on a translation that is not
/// UTF-8, which the catalog alone decides.
#[verifier::external_body]
fn gettext_lookup(msgid: &str) -> (r: String)
    requires
        !has_nul(msgid@),
    ensures
        catalog_text(msgid@, r@),
{
    gettextrs::gettext(msgid)
}

/// Calls `gettextrs::ngettext`, which picks the singular or plural form of a
/// message for the count `n` in the current locale. The contract only ties
/// the result to the two forms and the count as a catalog text; which text
/// comes back depends on the locale and is not stated. The call panics on a
/// NUL in either form (excluded here) and on a translation that is not
/// UTF-8.
#[verifier::external_body]
fn ngettext_lookup(singular: &str, plural: &str, n: u32) -> (r: String)
    requires
        !has_nul(singular@),
        !has_nul(plural@),
    ensures
        catalog_plural_text(singular@, plural@, n, r@),
{
    gettextrs::ngettext(singular, plural, n)
}

/// Whether `s` holds a NUL character.
pub fn contains_nul(s: &str) -> (r: bool)
    ensures
        r == has_nul(s@),
{
    let chars = crate::text::chars_of(s);
    let mut i: usize = 0;
    while i < chars.len()
        invariant
            i <= chars.len(),
            chars@ == s@,
            forall|j: int| 0 <= j < i ==> chars@[j] != '\0',
        decreases chars.len() - i,
    {
        if chars[i] == '\0' {
            return true;
        }
        i = i + 1;
    }
    false
}

/// The translation of `msgid` in the current locale. A message id with a NUL
/// character cannot be looked up and is returned as it is.
pub fn tr(msgid: &str) -> (r: String)
    ensures
        translated(msgid@, r@),
{
    if contains_nul(msgid) {
        msgid.to_string()
    } else {
        gettext_lookup(msgid)
    }
}

/// The singular or plural translation of a message for the count `n`.
/// Forms with a NUL character cannot be looked up: then the singular form is
/// returned for a count of one and the plural form otherwise.
pub fn tr_plural(singular: &str, plural: &str, n: u32) -> (r: String)
    ensures
        translated_plural(singular@, plural@, n, r@),
{
    if contains_nul(singular) || contains_nul(plural) {
        if n == 1 {
            singular.to_string()
        } else {
            plural.to_string()
        }
    } else {
        ngettext_lookup(singular, plural, n)
    }
}

} // verus!
