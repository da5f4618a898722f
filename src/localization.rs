//! Building the localization table from the store's text resources named
//! `languages/<lang>_<sheet>`.
use vstd::prelude::*;
use vstd::utf8::{encode_utf8, encode_utf8_decode_utf8, encode_utf8_valid_utf8};
use crate::codec::{DecodeError, aes256_ecb_decrypted, base64_decode, base64_decoded, decrypt, decrypt_spec};
use crate::entries::{entries_markup, find, find_from, lemma_entries_round_trip, pairs_view, parse_entries, parse_entries_spec, plain_entries, slice_text};
use crate::table::{Languages, LanguagesView, SheetView, languages_insert, languages_view, language_insert, language_view, lemma_put_put, lookup_or, new_language, new_languages, new_sheet, put, put_all, sheet_insert, sheet_view};
use crate::text::{lower_text, text_chars, to_ascii_lower};

verus! {

/// The key the game's language assets are encrypted with.
pub const LANGUAGE_ASSET_KEY: [u8; 32] = [
    85, 75, 117, 53, 50, 101, 80, 85, 66, 119, 101, 116, 90, 57, 119, 78,
    88, 56, 56, 111, 53, 52, 100, 110, 102, 75, 82, 117, 48, 84, 49, 108,
];

/// A named text resource of the store; `script` is `None` when the object
/// behind the name is not a text asset.
#[derive(Clone, Debug)]
pub struct TextResource {
    pub name: String,
    pub script: Option<String>,
}

/// Why one language sheet could not be read.
#[derive(Clone, Copy, Debug, PartialEq, Eq, Structural)]
pub enum SheetError {
    /// The payload is not standard base64.
    BadBase64,
    /// The decrypted payload is not valid padded UTF-8 text.
    Decode(DecodeError),
    /// The text is not a well-formed entry list.
    Malformed,
}

/// A sheet failure, with the name of the resource it came from.
#[derive(Clone, Debug)]
pub struct LanguageError {
    pub resource: String,
    pub cause: SheetError,
}

pub open spec fn languages_prefix() -> Seq<char> {
    seq!['l', 'a', 'n', 'g', 'u', 'a', 'g', 'e', 's', '/']
}

/// `(lang, sheet)` for a name `languages/<lang>_<sheet>`, split at the first
/// `_` after the prefix; `None` for any other name.
pub open spec fn resource_sheet_spec(name: Seq<char>) -> Option<(Seq<char>, Seq<char>)> {
    if name.len() < 10 || name.subrange(0, 10) != languages_prefix() {
        None
    } else {
        let rest = name.subrange(10, name.len() as int);
        let u = find_from(rest, seq!['_'], 0);
        if u < 0 {
            None
        } else {
            Some((rest.subrange(0, u), rest.subrange(u + 1, rest.len() as int)))
        }
    }
}

/// The entries that encrypted sheet bytes hold.
pub open spec fn sheet_bytes_spec(key: Seq<u8>, data: Seq<u8>) -> Result<SheetView, SheetError> {
    match decrypt_spec(key, data) {
        Err(e) => Err(SheetError::Decode(e)),
        Ok(text) => match parse_entries_spec(text) {
            Some(es) => Ok(es),
            None => Err(SheetError::Malformed),
        },
    }
}

/// The entries that a base64 sheet payload holds.
pub open spec fn sheet_spec(key: Seq<u8>, script: Seq<char>) -> Result<SheetView, SheetError> {
    match base64_decoded(script) {
        None => Err(SheetError::BadBase64),
        Some(data) => sheet_bytes_spec(key, data),
    }
}

/// The table with the entries of one sheet merged in: the language and the
/// sheet are added last when new, and each entry overwrites its key.
pub open spec fn add_sheet_spec(
    t: LanguagesView,
    lang: Seq<char>,
    sheet: Seq<char>,
    es: SheetView,
) -> LanguagesView {
    let l = lookup_or(t, lang, Seq::empty());
    let sh = lookup_or(l, sheet, Seq::empty());
    put(t, lang, put(l, sheet, put_all(sh, es)))
}

/// One resource applied to a table.
pub open spec fn resource_step(t: LanguagesView, r: TextResource, key: Seq<u8>) -> Result<LanguagesView, SheetError> {
    match resource_sheet_spec(r.name@) {
        None => Ok(t),
        Some((lang, sheet)) => match r.script {
            None => Ok(t),
            Some(script) => match sheet_spec(key, script@) {
                Err(e) => Err(e),
                Ok(es) => Ok(add_sheet_spec(t, lang, lower_text(sheet), es)),
            },
        },
    }
}

/// The table built from resources in order, or the position and cause of the
/// first sheet that failed.
pub open spec fn build_spec(rs: Seq<TextResource>, key: Seq<u8>) -> Result<LanguagesView, (int, SheetError)>
    decreases rs.len(),
{
    if rs.len() == 0 {
        Ok(Seq::empty())
    } else {
        match build_spec(rs.drop_last(), key) {
            Err(e) => Err(e),
            Ok(t) => match resource_step(t, rs.last(), key) {
                Ok(t2) => Ok(t2),
                Err(e) => Err((rs.len() - 1, e)),
            },
        }
    }
}

/// Splits a resource name `languages/<lang>_<sheet>` into language and sheet.
pub fn resource_sheet(name: &str) -> (r: Option<(String, String)>)
    ensures
        r matches Some((l, s)) ==> resource_sheet_spec(name@) == Some((l@, s@)),
        r is None <==> resource_sheet_spec(name@) is None,
{
    let cs = text_chars(name);
    let n = cs.len();
    if n < 10 {
        return None;
    }
    let prefix: Vec<char> = vec!['l', 'a', 'n', 'g', 'u', 'a', 'g', 'e', 's', '/'];
    let mut k: usize = 0;
    while k < 10
        invariant
            cs@ == name@,
            n == cs@.len(),
            n >= 10,
            k <= 10,
            prefix@ == languages_prefix(),
            cs@.subrange(0, k as int) == prefix@.subrange(0, k as int),
        decreases 10 - k,
    {
        if cs[k] != prefix[k] {
            assert(cs@.subrange(0, 10)[k as int] == name@[k as int]);
            assert(cs@.subrange(0, 10) != languages_prefix());
            assert(name@.subrange(0, 10) != languages_prefix());
            return None;
        }
        assert(cs@.subrange(0, k + 1) =~= prefix@.subrange(0, k + 1));
        k = k + 1;
    }
    assert(prefix@.subrange(0, 10) =~= prefix@);
    let rest_text = slice_text(&cs, 10, n);
    let rest = text_chars(rest_text.as_str());
    let underscore: Vec<char> = vec!['_'];
    assert(underscore@ =~= seq!['_']);
    match find(&rest, &underscore, 0) {
        None => None,
        Some(u) => {
            proof {
                crate::entries::lemma_find_from_bounds(rest@, seq!['_'], 0);
            }
            let lang = slice_text(&rest, 0, u);
            let sheet = slice_text(&rest, u + 1, rest.len());
            Some((lang, sheet))
        },
    }
}

/// Decrypts sheet bytes and reads their entries.
pub fn decode_sheet_bytes(key: &[u8; 32], data: &[u8]) -> (r: Result<Vec<(String, String)>, SheetError>)
    ensures
        r matches Ok(v) ==> sheet_bytes_spec(key@, data@) == Ok::<SheetView, SheetError>(pairs_view(v@)),
        r matches Err(e) ==> sheet_bytes_spec(key@, data@) == Err::<SheetView, SheetError>(e),
{
    match decrypt(key, data) {
        Err(e) => Err(SheetError::Decode(e)),
        Ok(text) => match parse_entries(text.as_str()) {
            Some(v) => Ok(v),
            None => Err(SheetError::Malformed),
        },
    }
}

/// Decodes a base64 sheet payload, decrypts it and reads its entries.
pub fn decode_sheet(key: &[u8; 32], script: &str) -> (r: Result<Vec<(String, String)>, SheetError>)
    ensures
        r matches Ok(v) ==> sheet_spec(key@, script@) == Ok::<SheetView, SheetError>(pairs_view(v@)),
        r matches Err(e) ==> sheet_spec(key@, script@) == Err::<SheetView, SheetError>(e),
{
    match base64_decode(script) {
        None => Err(SheetError::BadBase64),
        Some(data) => decode_sheet_bytes(key, data.as_slice()),
    }
}

/// Merges the entries of one sheet into the table.
pub fn add_sheet(table: &mut Languages, lang: String, sheet: String, entries: &Vec<(String, String)>)
    ensures
        languages_view(*final(table)) == add_sheet_spec(
            languages_view(*old(table)),
            lang@,
            sheet@,
            pairs_view(entries@),
        ),
{
    let ghost t0 = languages_view(*table);
    let mut language = match languages_insert(table, lang.clone(), new_language()) {
        Some(l) => l,
        None => new_language(),
    };
    let ghost l0 = language_view(language);
    assert(l0 == lookup_or(t0, lang@, Seq::empty()));
    let mut sh = match language_insert(&mut language, sheet.clone(), new_sheet()) {
        Some(s) => s,
        None => new_sheet(),
    };
    let ghost sh0 = sheet_view(sh);
    assert(sh0 == lookup_or(l0, sheet@, Seq::empty()));
    let ghost es = pairs_view(entries@);
    let mut i: usize = 0;
    while i < entries.len()
        invariant
            i <= entries@.len(),
            es == pairs_view(entries@),
            sheet_view(sh) == put_all(sh0, es.subrange(0, i as int)),
        decreases entries@.len() - i,
    {
        let k = entries[i].0.clone();
        let v = entries[i].1.clone();
        sheet_insert(&mut sh, k, v);
        assert(es.subrange(0, i + 1).drop_last() =~= es.subrange(0, i as int));
        i = i + 1;
    }
    assert(es.subrange(0, i as int) =~= es);
    language_insert(&mut language, sheet, sh);
    proof {
        lemma_put_put(l0, sheet@, Seq::empty(), put_all(sh0, es));
    }
    languages_insert(table, lang, language);
    proof {
        lemma_put_put(t0, lang@, Seq::empty(), put(l0, sheet@, put_all(sh0, es)));
    }
}

/// Builds the table from the store's text resources, in order: resources not
/// named `languages/<lang>_<sheet>` or not holding text are skipped, sheet
/// names are folded to ASCII lowercase, and the first sheet that fails to
/// decode aborts the build, reported with its resource name.
pub fn get_language_keys(resources: &Vec<TextResource>, key: &[u8; 32]) -> (r: Result<Languages, LanguageError>)
    ensures
        r matches Ok(t) ==> build_spec(resources@, key@) == Ok::<LanguagesView, (int, SheetError)>(
            languages_view(t),
        ),
        r matches Err(e) ==> (build_spec(resources@, key@) matches Err((i, c)) && c == e.cause && 0
            <= i < resources@.len() && resources@[i].name@ == e.resource@),
{
    let mut table = new_languages();
    let mut i: usize = 0;
    while i < resources.len()
        invariant
            i <= resources@.len(),
            build_spec(resources@.subrange(0, i as int), key@) == Ok::<LanguagesView, (int, SheetError)>(
                languages_view(table),
            ),
        decreases resources@.len() - i,
    {
        let res = &resources[i];
        let ghost before = languages_view(table);
        assert(resources@.subrange(0, i + 1).drop_last() =~= resources@.subrange(0, i as int));
        assert(resources@.subrange(0, i + 1).last() == resources@[i as int]);
        match resource_sheet(res.name.as_str()) {
            None => {},
            Some((lang, sheet)) => match &res.script {
                None => {},
                Some(script) => match decode_sheet(key, script.as_str()) {
                    Err(cause) => {
                        proof {
                            lemma_build_prefix_err(resources@, key@, i as int);
                        }
                        return Err(LanguageError { resource: res.name.clone(), cause });
                    },
                    Ok(entries) => {
                        let sheet_key = to_ascii_lower(sheet.as_str());
                        add_sheet(&mut table, lang, sheet_key, &entries);
                    },
                },
            },
        }
        i = i + 1;
    }
    assert(resources@.subrange(0, i as int) =~= resources@);
    Ok(table)
}

/// A failure at position `i` of a prefix is the failure of the whole build.
proof fn lemma_build_prefix_err(rs: Seq<TextResource>, key: Seq<u8>, i: int)
    requires
        0 <= i < rs.len(),
        build_spec(rs.subrange(0, i + 1), key) matches Err(_),
    ensures
        build_spec(rs, key) == build_spec(rs.subrange(0, i + 1), key),
    decreases rs.len() - i,
{
    if i + 1 < rs.len() {
        assert(rs.subrange(0, rs.len() - 1).subrange(0, i + 1) =~= rs.subrange(0, i + 1));
        lemma_build_prefix_err(rs.subrange(0, rs.len() - 1), key, i);
        assert(rs.drop_last() =~= rs.subrange(0, rs.len() - 1));
    } else {
        assert(rs.subrange(0, i + 1) =~= rs);
    }
}

/// Entries written as markup, encoded as UTF-8 and encrypted under `key`, are
/// read back exactly by the sheet decoder, empty texts included.
pub proof fn lemma_decrypt_parse_round_trip(key: Seq<u8>, data: Seq<u8>, es: SheetView)
    requires
        plain_entries(es),
        aes256_ecb_decrypted(key, data) == Some(encode_utf8(entries_markup(es))),
    ensures
        sheet_bytes_spec(key, data) == Ok::<SheetView, SheetError>(es),
{
    encode_utf8_valid_utf8(entries_markup(es));
    encode_utf8_decode_utf8(entries_markup(es));
    lemma_entries_round_trip(es);
}

} // verus!
