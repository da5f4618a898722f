//! The localization table: language, then sheet, then key, to text, each level
//! an insertion-ordered `IndexMap`.
use vstd::prelude::*;
use indexmap::IndexMap;

verus! {

/// `indexmap::IndexMap`, opaque to proofs: what a map holds is named by the
/// view functions below and stated by the wrappers of its methods.
#[verifier::external_type_specification]
#[verifier::external_body]
#[verifier::reject_recursive_types(K)]
#[verifier::reject_recursive_types(V)]
#[verifier::reject_recursive_types(S)]
pub struct ExIndexMap<K, V, S>(IndexMap<K, V, S>);

/// Key to text within one sheet.
pub type Sheet = IndexMap<String, String>;

/// Sheet name to sheet, for one language.
pub type Language = IndexMap<String, Sheet>;

/// Language code to language.
pub type Languages = IndexMap<String, Language>;

/// Contents of a map as its key/value pairs in insertion order.
pub type Pairs<V> = Seq<(Seq<char>, V)>;

pub type SheetView = Pairs<Seq<char>>;

pub type LanguageView = Pairs<SheetView>;

pub type LanguagesView = Pairs<LanguageView>;

/// What a sheet holds.
pub uninterp spec fn sheet_view(m: Sheet) -> SheetView;

/// What a language holds.
pub uninterp spec fn language_view(m: Language) -> LanguageView;

/// What a table of languages holds.
pub uninterp spec fn languages_view(m: Languages) -> LanguagesView;

/// Position of key `k` in `s`, or -1.
pub open spec fn key_index<V>(s: Pairs<V>, k: Seq<char>) -> int
    decreases s.len(),
{
    if s.len() == 0 {
        -1
    } else if s.last().0 == k {
        s.len() - 1
    } else {
        key_index(s.drop_last(), k)
    }
}

/// The value stored under `k`, if any.
pub open spec fn lookup<V>(s: Pairs<V>, k: Seq<char>) -> Option<V> {
    let i = key_index(s, k);
    if i < 0 {
        None
    } else {
        Some(s[i].1)
    }
}

/// The value stored under `k`, or `d`.
pub open spec fn lookup_or<V>(s: Pairs<V>, k: Seq<char>, d: V) -> V {
    match lookup(s, k) {
        Some(v) => v,
        None => d,
    }
}

/// Insertion as `IndexMap::insert` does it: an existing key keeps its place
/// and takes the new value; a new key goes last.
pub open spec fn put<V>(s: Pairs<V>, k: Seq<char>, v: V) -> Pairs<V> {
    let i = key_index(s, k);
    if i < 0 {
        s.push((k, v))
    } else {
        s.update(i, (k, v))
    }
}

/// The pairs of `es` inserted one after the other, later ones winning.
pub open spec fn put_all(s: SheetView, es: SheetView) -> SheetView
    decreases es.len(),
{
    if es.len() == 0 {
        s
    } else {
        let last = es.last();
        put(put_all(s, es.drop_last()), last.0, last.1)
    }
}

pub proof fn lemma_key_index_bounds<V>(s: Pairs<V>, k: Seq<char>)
    ensures
        -1 <= key_index(s, k) < s.len(),
        key_index(s, k) >= 0 ==> s[key_index(s, k)].0 == k,
    decreases s.len(),
{
    if s.len() > 0 {
        lemma_key_index_bounds(s.drop_last(), k);
    }
}

pub proof fn lemma_key_index_update<V>(s: Pairs<V>, k: Seq<char>, v: V)
    requires
        key_index(s, k) >= 0,
    ensures
        key_index(s.update(key_index(s, k), (k, v)), k) == key_index(s, k),
    decreases s.len(),
{
    lemma_key_index_bounds(s, k);
    let i = key_index(s, k);
    let u = s.update(i, (k, v));
    if i < s.len() - 1 {
        assert(u.last() == s.last());
        assert(u.drop_last() =~= s.drop_last().update(i, (k, v)));
        lemma_key_index_update(s.drop_last(), k, v);
    }
}

/// Inserting twice under one key is inserting the second value.
pub proof fn lemma_put_put<V>(s: Pairs<V>, k: Seq<char>, a: V, b: V)
    ensures
        put(put(s, k, a), k, b) == put(s, k, b),
{
    let i = key_index(s, k);
    lemma_key_index_bounds(s, k);
    if i < 0 {
        assert(s.push((k, a)).drop_last() =~= s);
        assert(s.push((k, a)).update(s.len() as int, (k, b)) =~= s.push((k, b)));
    } else {
        lemma_key_index_update(s, k, a);
        assert(s.update(i, (k, a)).update(i, (k, b)) =~= s.update(i, (k, b)));
    }
}

/// Relies on `IndexMap::new`: the map starts empty.
#[verifier::external_body]
pub(crate) fn new_sheet() -> (r: Sheet)
    ensures
        sheet_view(r) == Seq::<(Seq<char>, Seq<char>)>::empty(),
{
    IndexMap::new()
}

/// Relies on `IndexMap::insert` (see its documentation for the order kept).
#[verifier::external_body]
pub(crate) fn sheet_insert(m: &mut Sheet, k: String, v: String)
    ensures
        sheet_view(*final(m)) == put(sheet_view(*old(m)), k@, v@),
{
    m.insert(k, v);
}

/// Relies on `IndexMap::get`: the value stored under an equal key.
#[verifier::external_body]
pub(crate) fn sheet_get<'a>(m: &'a Sheet, k: &str) -> (r: Option<&'a String>)
    ensures
        r matches Some(v) ==> lookup(sheet_view(*m), k@) == Some(v@),
        r is None <==> lookup(sheet_view(*m), k@) is None,
{
    m.get(k)
}

/// Relies on `IndexMap::new`: the map starts empty.
#[verifier::external_body]
pub(crate) fn new_language() -> (r: Language)
    ensures
        language_view(r) == Seq::<(Seq<char>, SheetView)>::empty(),
{
    IndexMap::new()
}

/// Relies on `IndexMap::insert`: as `put`, handing back the value replaced.
#[verifier::external_body]
pub(crate) fn language_insert(m: &mut Language, k: String, v: Sheet) -> (r: Option<Sheet>)
    ensures
        language_view(*final(m)) == put(language_view(*old(m)), k@, sheet_view(v)),
        r matches Some(o) ==> lookup(language_view(*old(m)), k@) == Some(sheet_view(o)),
        r is None <==> lookup(language_view(*old(m)), k@) is None,
{
    m.insert(k, v)
}

/// Relies on `IndexMap::get`: the value stored under an equal key.
#[verifier::external_body]
pub(crate) fn language_get<'a>(m: &'a Language, k: &str) -> (r: Option<&'a Sheet>)
    ensures
        r matches Some(v) ==> lookup(language_view(*m), k@) == Some(sheet_view(*v)),
        r is None <==> lookup(language_view(*m), k@) is None,
{
    m.get(k)
}

/// Relies on `IndexMap::new`: the map starts empty.
#[verifier::external_body]
pub(crate) fn new_languages() -> (r: Languages)
    ensures
        languages_view(r) == Seq::<(Seq<char>, LanguageView)>::empty(),
{
    IndexMap::new()
}

/// Relies on `IndexMap::insert`: as `put`, handing back the value replaced.
#[verifier::external_body]
pub(crate) fn languages_insert(m: &mut Languages, k: String, v: Language) -> (r: Option<Language>)
    ensures
        languages_view(*final(m)) == put(languages_view(*old(m)), k@, language_view(v)),
        r matches Some(o) ==> lookup(languages_view(*old(m)), k@) == Some(language_view(o)),
        r is None <==> lookup(languages_view(*old(m)), k@) is None,
{
    m.insert(k, v)
}

/// Relies on `IndexMap::get`: the value stored under an equal key.
#[verifier::external_body]
pub(crate) fn languages_get<'a>(m: &'a Languages, k: &str) -> (r: Option<&'a Language>)
    ensures
        r matches Some(v) ==> lookup(languages_view(*m), k@) == Some(language_view(*v)),
        r is None <==> lookup(languages_view(*m), k@) is None,
{
    m.get(k)
}

} // verus!
