//! Translated messages.
use vstd::prelude::*;

verus! {

/// Whether a message can be handed to the translation catalog: it holds no
/// NUL character.
pub open spec fn is_msgid(s: Seq<char>) -> bool {
    !s.contains('\0')
}

/// Whether `r` is a result that `gettext` gives for a message whose text is
/// `msgid`: the catalog was asked for that message and this came back.
pub closed spec fn is_translation_of(msgid: Seq<char>, r: String) -> bool {
    exists|m: &str| m@ == msgid && #[trigger] call_ensures(gettext, (m,), r)
}

/// Whether `r` is a result that `ngettext` gives for this message, plural
/// form and count.
pub closed spec fn is_plural_translation_of(msgid: Seq<char>, plural: Seq<char>, n: u32, r: String) -> bool {
    exists|m: &str, p: &str| m@ == msgid && p@ == plural && #[trigger] call_ensures(ngettext, (m, p, n), r)
}

/// What `gettext` gave for `m` is a translation of `m`'s text.
pub(crate) proof fn lemma_translation(m: &str, r: String)
    requires
        call_ensures(gettext, (m,), r),
    ensures
        is_translation_of(m@, r),
{
}

/// What `ngettext` gave for `m`, `p` and `n` is a translation of their text
/// and count.
pub(crate) proof fn lemma_plural_translation(m: &str, p: &str, n: u32, r: String)
    requires
        call_ensures(ngettext, (m, p, n), r),
    ensures
        is_plural_translation_of(m@, p@, n, r),
{
}

/// `gettextrs::gettext`: the translation of `msgid` in the current locale.
/// What comes back depends on the locale and its catalogs, so nothing is
/// stated of it. The crate panics on a NUL inside `msgid`, which `requires`
/// rules out, and on a catalog entry that is not UTF-8, which depends on the
/// installed catalogs and is not ruled out here.
#[verifier::external_body]
pub(crate) fn gettext(msgid: &str) -> (r: String)
    requires
        is_msgid(msgid@),
{
    gettextrs::gettext(msgid)
}

/// `gettextrs::ngettext`: the singular or plural translation for the count
/// `n` in the current locale. What comes back depends on the locale and its
/// catalogs, so nothing is stated of it. The crate panics on a NUL in either
/// message, which `requires` rules out, and on a catalog entry that is not
/// UTF-8, which depends on the installed catalogs and is not ruled out here.
#[verifier::external_body]
pub(crate) fn ngettext(msgid: &str, msgid_plural: &str, n: u32) -> (r: String)
    requires
        is_msgid(msgid@),
        is_msgid(msgid_plural@),
{
    gettextrs::ngettext(msgid, msgid_plural, n)
}

} // verus!
