//! Whether the menu is to speak Japanese.

use vstd::prelude::*;

use crate::text::{contains, occurs_in};

verus! {

/// What a locale name holds, in lowercase, when it names Japanese.
pub const JAPANESE_MARK: &'static str = "ja";

/// The lowercase form of a text as `str::to_lowercase` gives it.
pub uninterp spec fn lowercase(text: Seq<char>) -> Seq<char>;

/// `str::to_lowercase`. The result is named, not described: it is the
/// lowercase form that the standard library gives, by the Unicode rules it
/// follows.
#[verifier::external_body]
fn to_lowercase(text: &str) -> (lower: String)
    ensures
        lower@ == lowercase(text@),
{
    text.to_lowercase()
}

/// Whether a text, already in lowercase, names Japanese: it does when `ja`
/// stands somewhere in it.
pub fn mentions_japanese(lowered: &str) -> (yes: bool)
    ensures
        yes == occurs_in(lowered@, JAPANESE_MARK@),
{
    contains(lowered, JAPANESE_MARK)
}

/// A locale name names Japanese when its lowercase form holds `ja`.
pub open spec fn names_japanese(locale: Seq<char>) -> bool {
    occurs_in(lowercase(locale), JAPANESE_MARK@)
}

/// Whether a locale name, such as `ja_JP.UTF-8`, names Japanese.
pub fn locale_is_japanese(locale: &str) -> (yes: bool)
    ensures
        yes == names_japanese(locale@),
{
    let lowered = to_lowercase(locale);
    mentions_japanese(lowered.as_str())
}

/// Whether the menu is to speak Japanese. `lang` is the value of the `LANG`
/// variable and `system_locale` the locale that the system reports; each is
/// absent where it could not be had. Japanese it is when either names it.
pub fn is_japanese(lang: Option<&str>, system_locale: Option<&str>) -> (yes: bool)
    ensures
        yes == ((lang matches Some(name) && names_japanese(name@)) || (system_locale matches Some(
            name,
        ) && names_japanese(name@))),
{
    let by_lang = match lang {
        Some(name) => locale_is_japanese(name),
        None => false,
    };
    if by_lang {
        true
    } else {
        match system_locale {
            Some(name) => locale_is_japanese(name),
            None => false,
        }
    }
}

} // verus!
