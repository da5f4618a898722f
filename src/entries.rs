//! The entry-list format of a language sheet: a sequence of
//! `<entry name="KEY">TEXT</entry>` elements (or `<entry name="KEY"/>` for an
//! empty text). Text outside entries is skipped; entry text is trimmed of XML
//! whitespace and its character references are resolved.
use vstd::prelude::*;
use crate::table::SheetView;
use crate::text::{push_char, text_chars};

verus! {

/// What resolving the character and entity references of a text gives, or
/// `None` for an unknown or unterminated reference.
pub uninterp spec fn xml_unescaped(s: Seq<char>) -> Option<Seq<char>>;

/// Relies on `quick_xml::escape::unescape`: references are replaced, and a
/// malformed one is an error.
#[verifier::external_body]
fn xml_unescape(s: &str) -> (r: Option<String>)
    ensures
        r matches Some(v) ==> xml_unescaped(s@) == Some(v@),
        r is None <==> xml_unescaped(s@) is None,
{
    quick_xml::escape::unescape(s).ok().map(|c| c.into_owned())
}

pub open spec fn open_tag() -> Seq<char> {
    seq!['<', 'e', 'n', 't', 'r', 'y', ' ', 'n', 'a', 'm', 'e', '=', '"']
}

pub open spec fn close_tag() -> Seq<char> {
    seq!['<', '/', 'e', 'n', 't', 'r', 'y', '>']
}

pub open spec fn is_xml_space(c: char) -> bool {
    c == ' ' || c == '\t' || c == '\r' || c == '\n'
}

pub open spec fn trim_start(t: Seq<char>) -> Seq<char>
    decreases t.len(),
{
    if t.len() > 0 && is_xml_space(t[0]) {
        trim_start(t.drop_first())
    } else {
        t
    }
}

pub open spec fn trim_end(t: Seq<char>) -> Seq<char>
    decreases t.len(),
{
    if t.len() > 0 && is_xml_space(t.last()) {
        trim_end(t.drop_last())
    } else {
        t
    }
}

/// `t` without leading and trailing XML whitespace.
pub open spec fn trim(t: Seq<char>) -> Seq<char> {
    trim_end(trim_start(t))
}

/// A name or text with its references resolved; text without `&` has none.
pub open spec fn field_text(t: Seq<char>) -> Option<Seq<char>> {
    if t.contains('&') {
        xml_unescaped(t)
    } else {
        Some(t)
    }
}

/// `p` occurs in `s` at `i`.
pub open spec fn starts_at(s: Seq<char>, i: int, p: Seq<char>) -> bool {
    0 <= i && i + p.len() <= s.len() && s.subrange(i, i + p.len()) == p
}

/// The first position at or after `i` where `p` occurs in `s`, or -1.
pub open spec fn find_from(s: Seq<char>, p: Seq<char>, i: int) -> int
    decreases s.len() - i,
{
    if i < 0 || p.len() == 0 || i + p.len() > s.len() {
        -1
    } else if starts_at(s, i, p) {
        i
    } else {
        find_from(s, p, i + 1)
    }
}

pub proof fn lemma_find_from_bounds(s: Seq<char>, p: Seq<char>, i: int)
    ensures
        find_from(s, p, i) == -1 || (i <= find_from(s, p, i) && starts_at(
            s,
            find_from(s, p, i),
            p,
        )),
    decreases s.len() - i,
{
    if !(i < 0 || p.len() == 0 || i + p.len() > s.len()) && !starts_at(s, i, p) {
        lemma_find_from_bounds(s, p, i + 1);
    }
}

/// Prepends `done` to a parse result.
pub open spec fn prepend(done: SheetView, rest: Option<SheetView>) -> Option<SheetView> {
    match rest {
        Some(r) => Some(done + r),
        None => None,
    }
}

/// The entries of `s` from position `i` on, or `None` when an entry is
/// malformed.
pub open spec fn parse_from(s: Seq<char>, i: int) -> Option<SheetView>
    decreases s.len() - i,
    via parse_from_decreases
{
    let o = find_from(s, open_tag(), i);
    if i < 0 || o < 0 {
        if i < 0 { None } else { Some(Seq::empty()) }
    } else {
        let ns = o + 13;
        let q = find_from(s, seq!['"'], ns);
        if q < 0 {
            None
        } else if starts_at(s, q + 1, seq!['/', '>']) {
            match (field_text(s.subrange(ns, q)), parse_from(s, q + 3)) {
                (Some(n), Some(rest)) => Some(seq![(n, Seq::empty())] + rest),
                _ => None,
            }
        } else if starts_at(s, q + 1, seq!['>']) {
            let lt = find_from(s, seq!['<'], q + 2);
            if lt < 0 || !starts_at(s, lt, close_tag()) {
                None
            } else {
                match (
                    field_text(s.subrange(ns, q)),
                    field_text(trim(s.subrange(q + 2, lt))),
                    parse_from(s, lt + 8),
                ) {
                    (Some(n), Some(v), Some(rest)) => Some(seq![(n, v)] + rest),
                    _ => None,
                }
            }
        } else {
            None
        }
    }
}

#[via_fn]
proof fn parse_from_decreases(s: Seq<char>, i: int) {
    lemma_find_from_bounds(s, open_tag(), i);
    let o = find_from(s, open_tag(), i);
    if i >= 0 && o >= 0 {
        lemma_find_from_bounds(s, seq!['"'], o + 13);
        let q = find_from(s, seq!['"'], o + 13);
        if q >= 0 {
            lemma_find_from_bounds(s, seq!['<'], q + 2);
        }
    }
}

/// The entries of a sheet text.
pub open spec fn parse_entries_spec(s: Seq<char>) -> Option<SheetView> {
    parse_from(s, 0)
}

pub open spec fn pairs_view(v: Seq<(String, String)>) -> SheetView {
    v.map_values(|p: (String, String)| (p.0@, p.1@))
}

/// Whether `p` occurs in `s` at `i`.
fn matches_at(s: &Vec<char>, p: &Vec<char>, i: usize) -> (r: bool)
    ensures
        r == starts_at(s@, i as int, p@),
{
    let n = s.len();
    if i > n || p.len() > n - i {
        return false;
    }
    let mut k: usize = 0;
    while k < p.len()
        invariant
            n == s@.len(),
            i + p@.len() <= s@.len(),
            k <= p@.len(),
            s@.subrange(i as int, i + k) == p@.subrange(0, k as int),
        decreases p@.len() - k,
    {
        if s[i + k] != p[k] {
            assert(s@.subrange(i as int, i + p@.len())[k as int] != p@[k as int]);
            return false;
        }
        assert(s@.subrange(i as int, i + k + 1) =~= p@.subrange(0, k + 1));
        k = k + 1;
    }
    assert(p@.subrange(0, k as int) =~= p@);
    true
}

/// The first position at or after `i` where `p` occurs.
pub(crate) fn find(s: &Vec<char>, p: &Vec<char>, i: usize) -> (r: Option<usize>)
    requires
        p@.len() > 0,
    ensures
        r matches Some(j) ==> find_from(s@, p@, i as int) == j,
        r is None ==> find_from(s@, p@, i as int) == -1,
{
    let n = s.len();
    if i > n {
        return None;
    }
    let mut j: usize = i;
    while p.len() <= n - j
        invariant
            n == s@.len(),
            p@.len() > 0,
            i <= j <= n,
            find_from(s@, p@, i as int) == find_from(s@, p@, j as int),
        decreases s@.len() - j,
    {
        if matches_at(s, p, j) {
            return Some(j);
        }
        j = j + 1;
    }
    None
}

/// The characters `s[a..b]` as a string.
pub(crate) fn slice_text(s: &Vec<char>, a: usize, b: usize) -> (r: String)
    requires
        a <= b <= s@.len(),
    ensures
        r@ == s@.subrange(a as int, b as int),
{
    let mut r = String::new();
    let mut k: usize = a;
    while k < b
        invariant
            a <= k <= b,
            b <= s@.len(),
            r@ == s@.subrange(a as int, k as int),
        decreases b - k,
    {
        push_char(&mut r, s[k]);
        assert(s@.subrange(a as int, k + 1) =~= s@.subrange(a as int, k as int).push(s@[k as int]));
        k = k + 1;
    }
    r
}

fn is_space(c: char) -> (r: bool)
    ensures
        r == is_xml_space(c),
{
    c == ' ' || c == '\t' || c == '\r' || c == '\n'
}

/// The bounds of `s[a..b]` trimmed of XML whitespace.
fn trim_bounds(s: &Vec<char>, a: usize, b: usize) -> (r: (usize, usize))
    requires
        a <= b <= s@.len(),
    ensures
        a <= r.0 <= r.1 <= b,
        s@.subrange(r.0 as int, r.1 as int) == trim(s@.subrange(a as int, b as int)),
{
    let ghost t = s@.subrange(a as int, b as int);
    let mut x: usize = a;
    while x < b && is_space(s[x])
        invariant
            a <= x <= b,
            b <= s@.len(),
            t == s@.subrange(a as int, b as int),
            trim_start(t) == trim_start(s@.subrange(x as int, b as int)),
        decreases b - x,
    {
        assert(s@.subrange(x as int, b as int).drop_first() =~= s@.subrange(x + 1, b as int));
        x = x + 1;
    }
    assert(trim_start(t) == s@.subrange(x as int, b as int));
    let mut y: usize = b;
    while y > x && is_space(s[y - 1])
        invariant
            a <= x <= y <= b,
            b <= s@.len(),
            trim(t) == trim_end(s@.subrange(x as int, y as int)),
        decreases y - x,
    {
        assert(s@.subrange(x as int, y as int).drop_last() =~= s@.subrange(x as int, y - 1));
        y = y - 1;
    }
    (x, y)
}

/// `field_text` of a string.
fn field_value(t: String) -> (r: Option<String>)
    ensures
        r matches Some(v) ==> field_text(t@) == Some(v@),
        r is None <==> field_text(t@) is None,
{
    let cs = text_chars(t.as_str());
    let mut k: usize = 0;
    while k < cs.len()
        invariant
            cs@ == t@,
            k <= cs@.len(),
            forall|j: int| 0 <= j < k ==> cs@[j] != '&',
        decreases cs@.len() - k,
    {
        if cs[k] == '&' {
            assert(t@.contains('&'));
            return xml_unescape(t.as_str());
        }
        k = k + 1;
    }
    assert(!t@.contains('&'));
    Some(t)
}

/// Reads the entries of a sheet text, in order; `None` when an entry is
/// malformed or holds an unknown reference.
pub fn parse_entries(text: &str) -> (r: Option<Vec<(String, String)>>)
    ensures
        r matches Some(v) ==> parse_entries_spec(text@) == Some(pairs_view(v@)),
        r is None <==> parse_entries_spec(text@) is None,
{
    let s = text_chars(text);
    let open: Vec<char> = vec!['<', 'e', 'n', 't', 'r', 'y', ' ', 'n', 'a', 'm', 'e', '=', '"'];
    let quote: Vec<char> = vec!['"'];
    let self_close: Vec<char> = vec!['/', '>'];
    let gt: Vec<char> = vec!['>'];
    let lt: Vec<char> = vec!['<'];
    let close: Vec<char> = vec!['<', '/', 'e', 'n', 't', 'r', 'y', '>'];
    assert(open@ =~= open_tag());
    assert(close@ =~= close_tag());
    assert(quote@ =~= seq!['"']);
    assert(self_close@ =~= seq!['/', '>']);
    assert(gt@ =~= seq!['>']);
    assert(lt@ =~= seq!['<']);
    let mut out: Vec<(String, String)> = Vec::new();
    let mut i: usize = 0;
    let len = s.len();
    loop
        invariant
            len == s@.len(),
            s@ == text@,
            i <= s@.len(),
            open@ == open_tag(),
            close@ == close_tag(),
            quote@ == seq!['"'],
            self_close@ == seq!['/', '>'],
            gt@ == seq!['>'],
            lt@ == seq!['<'],
            parse_from(s@, 0) == prepend(pairs_view(out@), parse_from(s@, i as int)),
        decreases s@.len() - i,
    {
        proof {
            lemma_find_from_bounds(s@, open_tag(), i as int);
        }
        let o = match find(&s, &open, i) {
            None => {
                assert(pairs_view(out@) + Seq::empty() =~= pairs_view(out@));
                return Some(out);
            },
            Some(o) => o,
        };
        let ns = o + 13;
        proof {
            lemma_find_from_bounds(s@, seq!['"'], ns as int);
        }
        let q = match find(&s, &quote, ns) {
            None => {
                return None;
            },
            Some(q) => q,
        };
        let name = match field_value(slice_text(&s, ns, q)) {
            None => {
                return None;
            },
            Some(n) => n,
        };
        let ghost done = pairs_view(out@);
        if matches_at(&s, &self_close, q + 1) {
            let ghost n = name@;
            out.push((name, String::new()));
            proof {
                assert(pairs_view(out@) =~= done.push((n, Seq::empty())));
                match parse_from(s@, q + 3) {
                    Some(rest) => {
                        assert(done + (seq![(n, Seq::<char>::empty())] + rest) =~= done.push(
                            (n, Seq::empty()),
                        ) + rest);
                    },
                    None => {},
                }
            }
            i = q + 3;
        } else if matches_at(&s, &gt, q + 1) {
            proof {
                lemma_find_from_bounds(s@, seq!['<'], q + 2);
            }
            let l = match find(&s, &lt, q + 2) {
                None => {
                    return None;
                },
                Some(l) => l,
            };
            if !matches_at(&s, &close, l) {
                return None;
            }
            let (a, b) = trim_bounds(&s, q + 2, l);
            let value = match field_value(slice_text(&s, a, b)) {
                None => {
                    return None;
                },
                Some(v) => v,
            };
            let ghost n = name@;
            let ghost v = value@;
            out.push((name, value));
            proof {
                assert(pairs_view(out@) =~= done.push((n, v)));
                match parse_from(s@, l + 8) {
                    Some(rest) => {
                        assert(done + (seq![(n, v)] + rest) =~= done.push((n, v)) + rest);
                    },
                    None => {},
                }
            }
            i = l + 8;
        } else {
            return None;
        }
    }
}

/// The markup of one entry.
pub open spec fn entry_markup(e: (Seq<char>, Seq<char>)) -> Seq<char> {
    open_tag() + e.0 + seq!['"', '>'] + e.1 + close_tag()
}

/// The markup of entries, one after the other.
pub open spec fn entries_markup(es: SheetView) -> Seq<char>
    decreases es.len(),
{
    if es.len() == 0 {
        Seq::empty()
    } else {
        entry_markup(es[0]) + entries_markup(es.drop_first())
    }
}

/// An entry written as plain text: a name without quotes or references, and a
/// text without markup, references or surrounding whitespace.
pub open spec fn plain_entry(e: (Seq<char>, Seq<char>)) -> bool {
    &&& !e.0.contains('"')
    &&& !e.0.contains('&')
    &&& !e.1.contains('<')
    &&& !e.1.contains('&')
    &&& trim(e.1) == e.1
}

pub open spec fn plain_entries(es: SheetView) -> bool {
    forall|i: int| 0 <= i < es.len() ==> plain_entry(#[trigger] es[i])
}

proof fn lemma_find_first(s: Seq<char>, p: Seq<char>, i: int, j: int)
    requires
        0 <= i <= j,
        p.len() > 0,
        starts_at(s, j, p),
        forall|k: int| i <= k < j ==> !starts_at(s, k, p),
    ensures
        find_from(s, p, i) == j,
    decreases j - i,
{
    if i < j {
        assert(!starts_at(s, i, p));
        lemma_find_first(s, p, i + 1, j);
    }
}

/// Entries written as markup after any prefix are read back from the end of the
/// prefix exactly.
pub proof fn lemma_parse_markup_from(x: Seq<char>, es: SheetView)
    requires
        plain_entries(es),
    ensures
        parse_from(x + entries_markup(es), x.len() as int) == Some(es),
    decreases es.len(),
{
    let s = x + entries_markup(es);
    let i = x.len() as int;
    if es.len() == 0 {
        assert(s =~= x);
        assert(find_from(s, open_tag(), i) == -1);
    } else {
        let e = es[0];
        let n = e.0;
        let v = e.1;
        assert(plain_entry(es[0]));
        let rest = es.drop_first();
        assert(plain_entries(rest)) by {
            assert forall|k: int| 0 <= k < rest.len() implies plain_entry(#[trigger] rest[k]) by {
                assert(rest[k] == es[k + 1]);
            }
        }
        let x2 = x + entry_markup(e);
        assert(s =~= x2 + entries_markup(rest));
        let ns = i + 13;
        let q = ns + n.len();
        let vs = q + 2;
        let l = vs + v.len();
        assert(x2.len() == l + 8);
        assert(s.subrange(i, i + 13) =~= open_tag());
        assert(find_from(s, open_tag(), i) == i);
        assert(s.subrange(ns, q) =~= n);
        assert(s.subrange(vs, l) =~= v);
        assert(s.subrange(q, q + 1) =~= seq!['"']);
        assert(s.subrange(q + 1, q + 2) =~= seq!['>']);
        assert(s.subrange(l, l + 8) =~= close_tag());
        assert(s.subrange(l, l + 1) =~= seq!['<']);
        assert forall|k: int| ns <= k < q implies !starts_at(s, k, seq!['"']) by {
            assert(s[k] == s.subrange(ns, q)[k - ns]);
            if s[k] == '"' {
                assert(n[k - ns] == '"');
                assert(n.contains('"'));
            }
            assert(s.subrange(k, k + 1)[0] == s[k]);
        }
        lemma_find_first(s, seq!['"'], ns, q);
        assert(!starts_at(s, q + 1, seq!['/', '>'])) by {
            assert(s.subrange(q + 1, q + 3)[0] == s[q + 1]);
            assert(s[q + 1] == s.subrange(q + 1, q + 2)[0]);
        }
        assert forall|k: int| vs <= k < l implies !starts_at(s, k, seq!['<']) by {
            assert(s[k] == s.subrange(vs, l)[k - vs]);
            if s[k] == '<' {
                assert(v[k - vs] == '<');
                assert(v.contains('<'));
            }
            assert(s.subrange(k, k + 1)[0] == s[k]);
        }
        lemma_find_first(s, seq!['<'], vs, l);
        lemma_parse_markup_from(x2, rest);
        assert(seq![(n, v)] + rest =~= es);
    }
}

/// Plain entries written as markup read back as the same entries, empty texts
/// included.
pub proof fn lemma_entries_round_trip(es: SheetView)
    requires
        plain_entries(es),
    ensures
        parse_entries_spec(entries_markup(es)) == Some(es),
{
    lemma_parse_markup_from(Seq::empty(), es);
    assert(Seq::<char>::empty() + entries_markup(es) =~= entries_markup(es));
}

} // verus!
