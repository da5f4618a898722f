//! The object store as the extractor sees it: a bundle of tagged objects, each
//! decoded into one of a closed set of record shapes, and typed references
//! between them.
use vstd::prelude::*;
use core::marker::PhantomData;
use crate::entries::{find, find_from};
use crate::records::Record;
use crate::table::{Language, LanguageView, language_view};
use crate::text::text_chars;

verus! {

/// Identity of an object in the store: a file index and a path id. A path id
/// of zero is the null reference.
#[derive(Clone, Copy, Debug, PartialEq, Eq, Structural)]
pub struct ObjectRef {
    pub file_id: i32,
    pub path_id: i64,
}

impl ObjectRef {
    pub open spec fn spec_is_null(self) -> bool {
        self.path_id == 0
    }

    /// True for the null reference.
    pub fn is_null(&self) -> (r: bool)
        ensures
            r == self.spec_is_null(),
    {
        self.path_id == 0
    }
}

/// A reference that is expected to point at a record of shape `T`.
#[derive(Debug)]
pub struct TypedRef<T> {
    pub object: ObjectRef,
    pub marker: PhantomData<T>,
}

impl<T> TypedRef<T> {
    pub fn new(object: ObjectRef) -> (r: Self)
        ensures
            r.object == object,
    {
        TypedRef { object, marker: PhantomData }
    }

    pub fn null() -> (r: Self)
        ensures
            r.object.spec_is_null(),
    {
        TypedRef { object: ObjectRef { file_id: 0, path_id: 0 }, marker: PhantomData }
    }
}

/// One tagged object of a bundle. `record` is `None` when the object could
/// not be decoded into any known shape.
#[derive(Debug)]
pub struct StoredObject {
    pub id: ObjectRef,
    pub name: String,
    pub class_name: String,
    pub record: Option<Record>,
}

/// The objects of one opened bundle, in the store's enumeration order.
#[derive(Debug)]
pub struct Bundle {
    pub objects: Vec<StoredObject>,
}

/// Why a record could not be decoded or projected.
#[derive(Clone, Copy, Debug, PartialEq, Eq, Structural)]
pub enum ErrorKind {
    /// The object's tag does not match the requested record shape.
    SchemaMismatch,
    /// A required reference is null or points at no object.
    MissingReference,
    /// A localized string is empty where text is required.
    EmptyText,
    /// A localized string names a sheet the table lacks.
    MissingSheet,
    /// A localized string names a key its sheet lacks.
    MissingKey,
    /// A condition compares a float or a string.
    UnsupportedCondition,
    /// A stored enumeration value has no variant.
    UnknownVariant,
    /// A field holds a value the projection does not expect.
    UnexpectedValue,
}

/// A record shape of the closed set, with its decoder from `Record`.
pub trait Shape: Sized {
    /// The record as this shape, if its tag is this shape's.
    spec fn shape_of(rec: Record) -> Option<Self>;

    fn cast(rec: &Record) -> (r: Option<&Self>)
        ensures
            r matches Some(x) ==> Self::shape_of(*rec) == Some(*x),
            r is None <==> Self::shape_of(*rec) is None,
    ;
}

/// The first position at or after `i` of an object with identity `id`, or -1.
pub open spec fn object_index(objs: Seq<StoredObject>, id: ObjectRef, i: int) -> int
    decreases objs.len() - i,
{
    if i < 0 || i >= objs.len() {
        -1
    } else if objs[i].id == id {
        i
    } else {
        object_index(objs, id, i + 1)
    }
}

pub proof fn lemma_object_index_bounds(objs: Seq<StoredObject>, id: ObjectRef, i: int)
    ensures
        object_index(objs, id, i) == -1 || (i <= object_index(objs, id, i) < objs.len()
            && objs[object_index(objs, id, i)].id == id),
    decreases objs.len() - i,
{
    if 0 <= i < objs.len() && objs[i].id != id {
        lemma_object_index_bounds(objs, id, i + 1);
    }
}

/// The record an object holds as shape `T`.
pub open spec fn decode_spec<T: Shape>(o: StoredObject) -> Result<T, ErrorKind> {
    match o.record {
        None => Err(ErrorKind::SchemaMismatch),
        Some(rec) => match T::shape_of(rec) {
            Some(t) => Ok(t),
            None => Err(ErrorKind::SchemaMismatch),
        },
    }
}

/// What following a required reference gives.
pub open spec fn deref_spec<T: Shape>(b: Bundle, r: ObjectRef) -> Result<T, ErrorKind> {
    let i = object_index(b.objects@, r, 0);
    if r.spec_is_null() || i < 0 {
        Err(ErrorKind::MissingReference)
    } else {
        decode_spec::<T>(b.objects@[i])
    }
}

/// What following an optional reference gives: a null reference is absent.
pub open spec fn deref_optional_spec<T: Shape>(b: Bundle, r: ObjectRef) -> Result<Option<T>, ErrorKind> {
    if r.spec_is_null() {
        Ok(None)
    } else {
        match deref_spec::<T>(b, r) {
            Ok(t) => Ok(Some(t)),
            Err(k) => Err(k),
        }
    }
}

/// The name of the object a reference points at; any object has one.
pub open spec fn deref_name_spec(b: Bundle, r: ObjectRef) -> Result<Seq<char>, ErrorKind> {
    let i = object_index(b.objects@, r, 0);
    if r.spec_is_null() || i < 0 {
        Err(ErrorKind::MissingReference)
    } else {
        Ok(b.objects@[i].name@)
    }
}

/// The name behind an optional reference: a null reference is absent.
pub open spec fn deref_name_optional_spec(b: Bundle, r: ObjectRef) -> Result<Option<Seq<char>>, ErrorKind> {
    if r.spec_is_null() {
        Ok(None)
    } else {
        match deref_name_spec(b, r) {
            Ok(n) => Ok(Some(n)),
            Err(k) => Err(k),
        }
    }
}

/// A null reference is absent on the optional path and missing on the
/// required one.
pub proof fn lemma_null_reference<T: Shape>(b: Bundle, r: ObjectRef)
    requires
        r.spec_is_null(),
    ensures
        deref_optional_spec::<T>(b, r) == Ok::<Option<T>, ErrorKind>(None),
        deref_spec::<T>(b, r) == Err::<T, ErrorKind>(ErrorKind::MissingReference),
{
}

/// Decodes an object as shape `T`.
pub fn decode<T: Shape>(o: &StoredObject) -> (r: Result<&T, ErrorKind>)
    ensures
        r matches Ok(t) ==> decode_spec::<T>(*o) == Ok::<T, ErrorKind>(*t),
        r matches Err(k) ==> decode_spec::<T>(*o) == Err::<T, ErrorKind>(k),
{
    match &o.record {
        None => Err(ErrorKind::SchemaMismatch),
        Some(rec) => match T::cast(rec) {
            Some(t) => Ok(t),
            None => Err(ErrorKind::SchemaMismatch),
        },
    }
}

/// Access to the currently open bundle and the language table, handed to
/// projections.
pub struct Resolver<'a> {
    pub bundle: &'a Bundle,
    pub lang: &'a Language,
}

impl<'a> Resolver<'a> {
    pub open spec fn lang_view(&self) -> LanguageView {
        language_view(*self.lang)
    }

    /// Follows a required reference.
    pub fn deref<T: Shape>(&self, r: &TypedRef<T>) -> (out: Result<&'a T, ErrorKind>)
        ensures
            out matches Ok(t) ==> deref_spec::<T>(*self.bundle, r.object) == Ok::<T, ErrorKind>(*t),
            out matches Err(k) ==> deref_spec::<T>(*self.bundle, r.object) == Err::<T, ErrorKind>(k),
    {
        if r.object.is_null() {
            return Err(ErrorKind::MissingReference);
        }
        let objs = &self.bundle.objects;
        let mut i: usize = 0;
        while i < objs.len()
            invariant
                objs@ == self.bundle.objects@,
                !r.object.spec_is_null(),
                i <= objs@.len(),
                object_index(objs@, r.object, 0) == object_index(objs@, r.object, i as int),
            decreases objs@.len() - i,
        {
            if objs[i].id == r.object {
                return decode::<T>(&objs[i]);
            }
            i = i + 1;
        }
        Err(ErrorKind::MissingReference)
    }

    /// The position of the object a non-null reference points at.
    fn position(&self, r: ObjectRef) -> (out: Option<usize>)
        requires
            !r.spec_is_null(),
        ensures
            out matches Some(i) ==> object_index(self.bundle.objects@, r, 0) == i && i
                < self.bundle.objects@.len(),
            out is None ==> object_index(self.bundle.objects@, r, 0) == -1,
    {
        let objs = &self.bundle.objects;
        let mut i: usize = 0;
        while i < objs.len()
            invariant
                objs@ == self.bundle.objects@,
                i <= objs@.len(),
                object_index(objs@, r, 0) == object_index(objs@, r, i as int),
            decreases objs@.len() - i,
        {
            if objs[i].id == r {
                return Some(i);
            }
            i = i + 1;
        }
        None
    }

    /// The name of the object a required reference points at.
    pub fn deref_name<T>(&self, r: &TypedRef<T>) -> (out: Result<&'a String, ErrorKind>)
        ensures
            out matches Ok(n) ==> deref_name_spec(*self.bundle, r.object) == Ok::<Seq<char>, ErrorKind>(n@),
            out matches Err(k) ==> deref_name_spec(*self.bundle, r.object) == Err::<Seq<char>, ErrorKind>(k),
    {
        if r.object.is_null() {
            return Err(ErrorKind::MissingReference);
        }
        match self.position(r.object) {
            Some(i) => Ok(&self.bundle.objects[i].name),
            None => Err(ErrorKind::MissingReference),
        }
    }

    /// The name behind an optional reference; `None` for a null one.
    pub fn deref_name_optional<T>(&self, r: &TypedRef<T>) -> (out: Result<Option<&'a String>, ErrorKind>)
        ensures
            out matches Ok(Some(n)) ==> deref_name_optional_spec(*self.bundle, r.object) == Ok::<
                Option<Seq<char>>,
                ErrorKind,
            >(Some(n@)),
            out matches Ok(None) ==> deref_name_optional_spec(*self.bundle, r.object) == Ok::<
                Option<Seq<char>>,
                ErrorKind,
            >(None),
            out matches Err(k) ==> deref_name_optional_spec(*self.bundle, r.object) == Err::<
                Option<Seq<char>>,
                ErrorKind,
            >(k),
    {
        if r.object.is_null() {
            return Ok(None);
        }
        match self.deref_name(r) {
            Ok(n) => Ok(Some(n)),
            Err(k) => Err(k),
        }
    }

    /// Follows an optional reference: a null one gives `None`, never an error.
    pub fn deref_optional<T: Shape>(&self, r: &TypedRef<T>) -> (out: Result<Option<&'a T>, ErrorKind>)
        ensures
            out matches Ok(Some(t)) ==> deref_optional_spec::<T>(*self.bundle, r.object) == Ok::<
                Option<T>,
                ErrorKind,
            >(Some(*t)),
            out matches Ok(None) ==> deref_optional_spec::<T>(*self.bundle, r.object) == Ok::<
                Option<T>,
                ErrorKind,
            >(None),
            out matches Err(k) ==> deref_optional_spec::<T>(*self.bundle, r.object) == Err::<
                Option<T>,
                ErrorKind,
            >(k),
    {
        if r.object.is_null() {
            return Ok(None);
        }
        match self.deref(r) {
            Ok(t) => Ok(Some(t)),
            Err(k) => Err(k),
        }
    }
}

/// How a dataset selects objects by their type name.
#[derive(Clone, Debug)]
pub enum TypeFilter {
    /// The type name equals the text.
    Exact(String),
    /// The type name contains the text; for a family of related types.
    Contains(String),
}

/// `p` occurs somewhere in `s`.
pub open spec fn contains_text(s: Seq<char>, p: Seq<char>) -> bool {
    exists|i: int| 0 <= i && i + p.len() <= s.len() && #[trigger] s.subrange(i, i + p.len()) == p
}

impl TypeFilter {
    pub open spec fn spec_matches(&self, class_name: Seq<char>) -> bool {
        match self {
            TypeFilter::Exact(t) => class_name == t@,
            TypeFilter::Contains(t) => contains_text(class_name, t@),
        }
    }

    /// Whether an object with this type name is in scope.
    pub fn matches(&self, class_name: &str) -> (r: bool)
        ensures
            r == self.spec_matches(class_name@),
    {
        match self {
            TypeFilter::Exact(t) => {
                let own = text_chars(t.as_str());
                let other = text_chars(class_name);
                chars_equal(&own, &other)
            },
            TypeFilter::Contains(t) => {
                let p = text_chars(t.as_str());
                let s = text_chars(class_name);
                if p.len() == 0 {
                    assert(s@.subrange(0int, 0int + p@.len()) =~= p@);
                    return true;
                }
                proof {
                    crate::entries::lemma_find_from_bounds(s@, p@, 0);
                }
                match find(&s, &p, 0) {
                    Some(_) => true,
                    None => {
                        proof {
                            lemma_find_none(s@, p@, 0);
                        }
                        false
                    },
                }
            },
        }
    }
}

/// When the search finds nothing from `i`, `p` occurs nowhere from `i` on.
proof fn lemma_find_none(s: Seq<char>, p: Seq<char>, i: int)
    requires
        0 <= i,
        p.len() > 0,
        find_from(s, p, i) == -1,
    ensures
        forall|k: int| i <= k && k + p.len() <= s.len() ==> #[trigger] s.subrange(k, k + p.len()) != p,
    decreases s.len() - i,
{
    if i + p.len() <= s.len() {
        lemma_find_none(s, p, i + 1);
    }
}

pub(crate) fn chars_equal(a: &Vec<char>, b: &Vec<char>) -> (r: bool)
    ensures
        r == (a@ == b@),
{
    if a.len() != b.len() {
        return false;
    }
    let mut k: usize = 0;
    while k < a.len()
        invariant
            a@.len() == b@.len(),
            k <= a@.len(),
            a@.subrange(0, k as int) == b@.subrange(0, k as int),
        decreases a@.len() - k,
    {
        if a[k] != b[k] {
            return false;
        }
        assert(a@.subrange(0, k + 1) =~= b@.subrange(0, k + 1));
        k = k + 1;
    }
    assert(a@ =~= a@.subrange(0, k as int));
    assert(b@ =~= b@.subrange(0, k as int));
    true
}

} // verus!
