//! The generic record extractor: selects a bundle's objects by type, decodes
//! each into the requested shape, projects it into a row, and fails on the
//! first record that cannot be decoded or projected.
use vstd::prelude::*;
use crate::store::{Bundle, ErrorKind, Resolver, Shape, StoredObject, TypeFilter, decode, decode_spec};
use crate::table::{Language, LanguageView, language_view};

verus! {

/// A dataset's projection from its record shape to its output row.
pub trait Projection {
    type Item: Shape;

    type Row: View;

    /// The row an item projects to, or why it cannot.
    spec fn project_spec(b: Bundle, lang: LanguageView, item: Self::Item) -> Result<
        <Self::Row as View>::V,
        ErrorKind,
    >;

    fn project(res: &Resolver, item: &Self::Item) -> (r: Result<Self::Row, ErrorKind>)
        ensures
            r matches Ok(row) ==> Self::project_spec(*res.bundle, res.lang_view(), *item) == Ok::<
                <Self::Row as View>::V,
                ErrorKind,
            >(row@),
            r matches Err(k) ==> Self::project_spec(*res.bundle, res.lang_view(), *item) == Err::<
                <Self::Row as View>::V,
                ErrorKind,
            >(k),
    ;
}

/// A failed extraction: the dataset, the record that failed, and why.
#[derive(Clone, Debug)]
pub struct ExtractError {
    pub dataset: String,
    pub record: String,
    pub kind: ErrorKind,
}

/// What one object contributes: nothing when out of scope, else its row or
/// its failure.
pub open spec fn extract_step<P: Projection>(
    b: Bundle,
    lang: LanguageView,
    filter: TypeFilter,
    o: StoredObject,
) -> Option<Result<<P::Row as View>::V, ErrorKind>> {
    if !filter.spec_matches(o.class_name@) {
        None
    } else {
        Some(
            match decode_spec::<P::Item>(o) {
                Err(k) => Err(k),
                Ok(t) => P::project_spec(b, lang, t),
            },
        )
    }
}

/// The rows of the first `n` objects, or the position and cause of the first
/// failure among them.
pub open spec fn extract_prefix<P: Projection>(
    b: Bundle,
    lang: LanguageView,
    filter: TypeFilter,
    n: int,
) -> Result<Seq<<P::Row as View>::V>, (int, ErrorKind)>
    decreases n,
{
    if n <= 0 {
        Ok(Seq::empty())
    } else {
        match extract_prefix::<P>(b, lang, filter, n - 1) {
            Err(e) => Err(e),
            Ok(rows) => match extract_step::<P>(b, lang, filter, b.objects@[n - 1]) {
                None => Ok(rows),
                Some(Ok(row)) => Ok(rows.push(row)),
                Some(Err(k)) => Err((n - 1, k)),
            },
        }
    }
}

/// The rows of a whole bundle, in enumeration order.
pub open spec fn extract_spec<P: Projection>(b: Bundle, lang: LanguageView, filter: TypeFilter) -> Result<
    Seq<<P::Row as View>::V>,
    (int, ErrorKind),
> {
    extract_prefix::<P>(b, lang, filter, b.objects@.len() as int)
}

pub open spec fn rows_view<R: View>(rows: Seq<R>) -> Seq<R::V> {
    rows.map_values(|r: R| r@)
}

/// Once a prefix has failed, every longer prefix fails the same way.
pub proof fn lemma_prefix_failure<P: Projection>(
    b: Bundle,
    lang: LanguageView,
    filter: TypeFilter,
    i: int,
    n: int,
)
    requires
        0 <= i <= n,
        extract_prefix::<P>(b, lang, filter, i) is Err,
    ensures
        extract_prefix::<P>(b, lang, filter, n) == extract_prefix::<P>(b, lang, filter, i),
    decreases n - i,
{
    if i < n {
        lemma_prefix_failure::<P>(b, lang, filter, i, n - 1);
    }
}

/// Extracts the rows of the objects of `bundle` that `filter` selects, in
/// enumeration order; the first record that fails aborts with an error naming
/// the dataset and the record.
pub fn extract<P: Projection>(bundle: &Bundle, lang: &Language, dataset: &str, filter: &TypeFilter) -> (r:
    Result<Vec<P::Row>, ExtractError>)
    ensures
        r matches Ok(rows) ==> extract_spec::<P>(*bundle, language_view(*lang), *filter) == Ok::<
            Seq<<P::Row as View>::V>,
            (int, ErrorKind),
        >(rows_view(rows@)),
        r matches Err(e) ==> (extract_spec::<P>(*bundle, language_view(*lang), *filter) matches Err(
            (i, k),
        ) && k == e.kind && 0 <= i < bundle.objects@.len() && e.record@ == bundle.objects@[i].name@
            && e.dataset@ == dataset@),
{
    let res = Resolver { bundle, lang };
    let ghost lv = language_view(*lang);
    let n = bundle.objects.len();
    let mut rows: Vec<P::Row> = Vec::new();
    let mut i: usize = 0;
    assert(rows_view(rows@) =~= Seq::<<P::Row as View>::V>::empty());
    while i < n
        invariant
            n == bundle.objects@.len(),
            i <= n,
            res.bundle == bundle,
            res.lang == lang,
            lv == language_view(*lang),
            extract_prefix::<P>(*bundle, lv, *filter, i as int) == Ok::<
                Seq<<P::Row as View>::V>,
                (int, ErrorKind),
            >(rows_view(rows@)),
        decreases n - i,
    {
        let o = &bundle.objects[i];
        if filter.matches(o.class_name.as_str()) {
            let outcome = match decode::<P::Item>(o) {
                Err(k) => Err(k),
                Ok(t) => P::project(&res, t),
            };
            match outcome {
                Err(k) => {
                    proof {
                        lemma_prefix_failure::<P>(*bundle, lv, *filter, i + 1, n as int);
                    }
                    return Err(ExtractError { dataset: dataset.to_owned(), record: o.name.clone(), kind: k });
                },
                Ok(row) => {
                    let ghost before = rows_view(rows@);
                    rows.push(row);
                    assert(rows_view(rows@) =~= before.push(row@));
                },
            }
        }
        i = i + 1;
    }
    Ok(rows)
}

/// A record in scope whose object does not decode as the requested shape
/// fails the extraction with a schema mismatch at that record, when no earlier
/// record has failed; no rows come out.
pub proof fn lemma_schema_mismatch_fails<P: Projection>(
    b: Bundle,
    lang: LanguageView,
    filter: TypeFilter,
    i: int,
)
    requires
        0 <= i < b.objects@.len(),
        filter.spec_matches(b.objects@[i].class_name@),
        decode_spec::<P::Item>(b.objects@[i]) is Err,
        extract_prefix::<P>(b, lang, filter, i) is Ok,
    ensures
        extract_spec::<P>(b, lang, filter) == Err::<Seq<<P::Row as View>::V>, (int, ErrorKind)>(
            (i, ErrorKind::SchemaMismatch),
        ),
{
    lemma_prefix_failure::<P>(b, lang, filter, i + 1, b.objects@.len() as int);
}

/// Extraction depends on nothing but the bundle, the table and the filter:
/// running it twice over the same inputs gives the same rows in the same order.
pub proof fn lemma_extraction_deterministic<P: Projection>(
    b1: Bundle,
    b2: Bundle,
    lang: LanguageView,
    filter: TypeFilter,
)
    requires
        b1 == b2,
    ensures
        extract_spec::<P>(b1, lang, filter) == extract_spec::<P>(b2, lang, filter),
{
}

} // verus!
