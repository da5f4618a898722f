//! Localized-string references and their resolution through a language table.
use vstd::prelude::*;
use crate::table::{Language, LanguageView, language_get, language_view, lookup, sheet_get};
use crate::text::{lower_text, to_ascii_lower};

verus! {

/// A `(sheet, key)` reference into the localization table. Both parts empty
/// means "no text"; otherwise both are set.
#[derive(Clone, Debug)]
pub struct LocalizedString {
    pub sheet: String,
    pub key: String,
}

/// A localized text with singular and plural forms.
#[derive(Clone, Debug)]
pub struct LocalizedStringPlural {
    pub plural: LocalizedString,
    pub single: LocalizedString,
}

/// Why a localized-string reference did not resolve.
#[derive(Clone, Debug, PartialEq, Eq)]
pub enum LookupError {
    /// The sheet or the key is empty where text is required.
    EmptyReference,
    /// No sheet of that name (compared in ASCII lowercase).
    MissingSheet,
    /// The sheet has no entry under that key.
    MissingKey,
}

/// The text under `key` in the sheet whose name is `sheet` in ASCII lowercase.
pub open spec fn lookup_text(lang: LanguageView, sheet: Seq<char>, key: Seq<char>) -> Option<Seq<char>> {
    match lookup(lang, lower_text(sheet)) {
        Some(entries) => lookup(entries, key),
        None => None,
    }
}

/// What resolving a reference that must name text gives.
pub open spec fn resolve_spec(lang: LanguageView, sheet: Seq<char>, key: Seq<char>) -> Result<Seq<char>, LookupError> {
    if sheet.len() == 0 || key.len() == 0 {
        Err(LookupError::EmptyReference)
    } else {
        match lookup(lang, lower_text(sheet)) {
            None => Err(LookupError::MissingSheet),
            Some(entries) => match lookup(entries, key) {
                None => Err(LookupError::MissingKey),
                Some(t) => Ok(t),
            },
        }
    }
}

/// Sheet names compare in ASCII lowercase: two spellings that fold to the same
/// name resolve every key the same way.
pub proof fn lemma_sheet_lookup_ignores_case(
    lang: LanguageView,
    sheet_a: Seq<char>,
    sheet_b: Seq<char>,
    key: Seq<char>,
)
    requires
        lower_text(sheet_a) == lower_text(sheet_b),
    ensures
        lookup_text(lang, sheet_a, key) == lookup_text(lang, sheet_b, key),
        resolve_spec(lang, sheet_a, key) == resolve_spec(lang, sheet_b, key),
{
    assert(sheet_a.len() == lower_text(sheet_a).len());
    assert(sheet_b.len() == lower_text(sheet_b).len());
}

impl LocalizedString {
    /// The reference written as `sheet-key`.
    pub fn to_text(&self) -> (r: String)
        ensures
            r@ == self.sheet@ + "-"@ + self.key@,
    {
        let mut r = self.sheet.clone();
        r.append("-");
        r.append(self.key.as_str());
        r
    }

    /// True when both parts are empty: the reference names no text.
    pub fn is_unset(&self) -> (r: bool)
        ensures
            r == (self.sheet@.len() == 0 && self.key@.len() == 0),
    {
        self.sheet.as_str().is_empty() && self.key.as_str().is_empty()
    }

    /// The text this reference names; the sheet name is compared in ASCII
    /// lowercase.
    pub fn get<'a>(&self, lang: &'a Language) -> (r: Result<&'a String, LookupError>)
        ensures
            r matches Ok(t) ==> resolve_spec(language_view(*lang), self.sheet@, self.key@) == Ok::<
                Seq<char>,
                LookupError,
            >(t@),
            r matches Err(e) ==> resolve_spec(language_view(*lang), self.sheet@, self.key@) == Err::<
                Seq<char>,
                LookupError,
            >(e),
    {
        if self.sheet.as_str().is_empty() || self.key.as_str().is_empty() {
            return Err(LookupError::EmptyReference);
        }
        let sheet_name = to_ascii_lower(self.sheet.as_str());
        match language_get(lang, sheet_name.as_str()) {
            None => Err(LookupError::MissingSheet),
            Some(sheet) => match sheet_get(sheet, self.key.as_str()) {
                None => Err(LookupError::MissingKey),
                Some(t) => Ok(t),
            },
        }
    }

    /// Like `get`, but a reference with both parts empty gives `None`.
    pub fn try_get<'a>(&self, lang: &'a Language) -> (r: Result<Option<&'a String>, LookupError>)
        ensures
            (self.sheet@.len() == 0 && self.key@.len() == 0) ==> r matches Ok(None),
            !(self.sheet@.len() == 0 && self.key@.len() == 0) ==> {
                &&& r matches Ok(Some(t)) ==> resolve_spec(
                    language_view(*lang),
                    self.sheet@,
                    self.key@,
                ) == Ok::<Seq<char>, LookupError>(t@)
                &&& r matches Err(e) ==> resolve_spec(language_view(*lang), self.sheet@, self.key@)
                    == Err::<Seq<char>, LookupError>(e)
                &&& !(r matches Ok(None))
            },
    {
        if self.is_unset() {
            return Ok(None);
        }
        match self.get(lang) {
            Ok(t) => Ok(Some(t)),
            Err(e) => Err(e),
        }
    }
}

} // verus!
