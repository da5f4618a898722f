//! Condition trees: an OR over groups, each an AND over field comparisons,
//! and their canonical text.
use vstd::prelude::*;
use crate::enums::{TestNumType, TestType};
use crate::text::{bool_text, int_text, push_char, push_int, push_str};

verus! {

/// One comparison of a player-data field against a value.
#[derive(Clone, Debug)]
pub struct Test {
    pub kind: TestType,
    pub field_name: String,
    pub bool_value: u8,
    pub num_type: TestNumType,
    pub int_value: i32,
    pub string_value: String,
    pub string_type: i32,
}

/// A conjunction of tests.
#[derive(Clone, Debug)]
pub struct TestGroup {
    pub tests: Vec<Test>,
}

/// A disjunction of test groups; with no groups it always holds.
#[derive(Clone, Debug)]
pub struct PlayerDataTest {
    pub test_groups: Vec<TestGroup>,
}

/// Why a condition could not be rendered.
#[derive(Clone, Debug)]
pub enum ConditionError {
    /// A test compares a float or a string, which has no rendering.
    UnsupportedShape { field_name: String, kind: TestType },
}

/// The operator text of a comparator.
pub open spec fn op_text(n: TestNumType) -> Seq<char> {
    match n {
        TestNumType::Equal => "="@,
        TestNumType::NotEqual => "!="@,
        TestNumType::LessThan => "<"@,
        TestNumType::MoreThan => ">"@,
    }
}

/// Whether a test has a rendering: float and string tests have none.
pub open spec fn supported(t: Test) -> bool {
    !(t.kind is Float) && !(t.kind is String)
}

/// The value part of a supported test.
pub open spec fn value_text(t: Test) -> Seq<char> {
    if t.kind is Bool {
        bool_text(t.bool_value != 0)
    } else {
        int_text(t.int_value as int)
    }
}

/// `<field> <op> <value>`.
pub open spec fn test_text(t: Test) -> Seq<char> {
    t.field_name@ + " "@ + op_text(t.num_type) + " "@ + value_text(t)
}

/// The parts joined by `sep`, in order.
pub open spec fn join(parts: Seq<Seq<char>>, sep: Seq<char>) -> Seq<char>
    decreases parts.len(),
{
    if parts.len() == 0 {
        Seq::empty()
    } else if parts.len() == 1 {
        parts[0]
    } else {
        join(parts.drop_last(), sep) + sep + parts.last()
    }
}

pub open spec fn group_supported(g: TestGroup) -> bool {
    forall|i: int| 0 <= i < g.tests@.len() ==> supported(#[trigger] g.tests@[i])
}

pub open spec fn condition_supported(c: PlayerDataTest) -> bool {
    forall|i: int| 0 <= i < c.test_groups@.len() ==> group_supported(#[trigger] c.test_groups@[i])
}

pub open spec fn tests_texts(ts: Seq<Test>) -> Seq<Seq<char>> {
    ts.map_values(|t: Test| test_text(t))
}

/// No tests: empty; one test: its text; more: `(t1 AND t2 ...)`.
pub open spec fn group_text(g: TestGroup) -> Seq<char> {
    let ts = g.tests@;
    if ts.len() == 0 {
        Seq::empty()
    } else if ts.len() == 1 {
        test_text(ts[0])
    } else {
        "("@ + join(tests_texts(ts), " AND "@) + ")"@
    }
}

pub open spec fn groups_texts(gs: Seq<TestGroup>) -> Seq<Seq<char>> {
    gs.map_values(|g: TestGroup| group_text(g))
}

/// No groups: empty; otherwise the group texts joined by ` OR `.
pub open spec fn condition_text(c: PlayerDataTest) -> Seq<char> {
    let gs = c.test_groups@;
    if gs.len() == 0 {
        Seq::empty()
    } else if gs.len() == 1 {
        group_text(gs[0])
    } else {
        join(groups_texts(gs), " OR "@)
    }
}

impl Test {
    /// Appends the text of a supported test.
    fn push_text(&self, out: &mut String)
        requires
            supported(*self),
        ensures
            final(out)@ == old(out)@ + test_text(*self),
    {
        let ghost start = out@;
        push_str(out, self.field_name.as_str());
        push_char(out, ' ');
        let op = match self.num_type {
            TestNumType::Equal => "=",
            TestNumType::NotEqual => "!=",
            TestNumType::LessThan => "<",
            TestNumType::MoreThan => ">",
        };
        proof {
            reveal_strlit("=");
            reveal_strlit("!=");
            reveal_strlit("<");
            reveal_strlit(">");
        }
        push_str(out, op);
        push_char(out, ' ');
        match self.kind {
            TestType::Bool => {
                let t = if self.bool_value != 0 { "true" } else { "false" };
                proof {
                    reveal_strlit("true");
                    reveal_strlit("false");
                }
                push_str(out, t);
            },
            _ => {
                push_int(out, self.int_value);
            },
        }
        proof {
            reveal_strlit(" ");
        }
        assert(out@ =~= start + test_text(*self));
    }

    /// The text of this test, or an error for a float or string test.
    pub fn render(&self) -> (r: Result<String, ConditionError>)
        ensures
            supported(*self) <==> r is Ok,
            r matches Ok(s) ==> s@ == test_text(*self),
            r matches Err(ConditionError::UnsupportedShape { field_name, kind }) ==> field_name@
                == self.field_name@ && kind == self.kind,
    {
        match self.kind {
            TestType::Float | TestType::String => Err(
                ConditionError::UnsupportedShape {
                    field_name: self.field_name.clone(),
                    kind: self.kind,
                },
            ),
            _ => {
                let mut s = String::new();
                self.push_text(&mut s);
                assert(s@ =~= test_text(*self));
                Ok(s)
            },
        }
    }
}

/// The first unsupported test of a sequence, if any, as an error.
fn first_unsupported(tests: &Vec<Test>) -> (r: Option<ConditionError>)
    ensures
        r is None <==> forall|i: int| 0 <= i < tests@.len() ==> supported(#[trigger] tests@[i]),
        r matches Some(ConditionError::UnsupportedShape { field_name, kind }) ==> exists|i: int|
            0 <= i < tests@.len() && !supported(#[trigger] tests@[i]) && tests@[i].field_name@
                == field_name@ && tests@[i].kind == kind,
{
    let mut i: usize = 0;
    while i < tests.len()
        invariant
            i <= tests@.len(),
            forall|j: int| 0 <= j < i ==> supported(#[trigger] tests@[j]),
        decreases tests@.len() - i,
    {
        let t = &tests[i];
        match t.kind {
            TestType::Float | TestType::String => {
                return Some(
                    ConditionError::UnsupportedShape {
                        field_name: t.field_name.clone(),
                        kind: t.kind,
                    },
                );
            },
            _ => {},
        }
        i = i + 1;
    }
    None
}

proof fn lemma_join_push(parts: Seq<Seq<char>>, x: Seq<char>, sep: Seq<char>)
    requires
        parts.len() > 0,
    ensures
        join(parts.push(x), sep) == join(parts, sep) + sep + x,
{
    assert(parts.push(x).drop_last() =~= parts);
}

impl TestGroup {
    /// Appends the text of a group whose tests are all supported.
    fn push_text(&self, out: &mut String)
        requires
            group_supported(*self),
        ensures
            final(out)@ == old(out)@ + group_text(*self),
    {
        let ghost start = out@;
        let n = self.tests.len();
        if n == 0 {
            assert(out@ =~= start + group_text(*self));
        } else if n == 1 {
            self.tests[0].push_text(out);
        } else {
            push_char(out, '(');
            let ghost texts = tests_texts(self.tests@);
            proof {
                reveal_strlit("(");
                assert(out@ =~= start + "("@ + join(texts.subrange(0, 0), " AND "@));
            }
            let mut i: usize = 0;
            while i < n
                invariant
                    n == self.tests@.len(),
                    n > 1,
                    i <= n,
                    group_supported(*self),
                    texts == tests_texts(self.tests@),
                    out@ == start + "("@ + join(texts.subrange(0, i as int), " AND "@),
                decreases n - i,
            {
                let ghost before = out@;
                if i > 0 {
                    push_str(out, " AND ");
                }
                self.tests[i].push_text(out);
                proof {
                    reveal_strlit(" AND ");
                    assert(texts.subrange(0, i + 1) =~= texts.subrange(0, i as int).push(
                        texts[i as int],
                    ));
                    if i > 0 {
                        lemma_join_push(texts.subrange(0, i as int), texts[i as int], " AND "@);
                    } else {
                        assert(join(texts.subrange(0, 1), " AND "@) == texts[0]);
                    }
                    assert(out@ =~= start + "("@ + join(texts.subrange(0, i + 1), " AND "@));
                }
                i = i + 1;
            }
            push_char(out, ')');
            proof {
                reveal_strlit("(");
                reveal_strlit(")");
                assert(texts.subrange(0, n as int) =~= texts);
                assert(out@ =~= start + group_text(*self));
            }
        }
    }

    /// The text of this group, or an error naming an unsupported test.
    pub fn render(&self) -> (r: Result<String, ConditionError>)
        ensures
            group_supported(*self) <==> r is Ok,
            r matches Ok(s) ==> s@ == group_text(*self),
    {
        match first_unsupported(&self.tests) {
            Some(e) => Err(e),
            None => {
                let mut s = String::new();
                self.push_text(&mut s);
                assert(s@ =~= group_text(*self));
                Ok(s)
            },
        }
    }
}

impl PlayerDataTest {
    /// True when the condition has no groups and so always holds.
    pub fn is_vacuous(&self) -> (r: bool)
        ensures
            r == (self.test_groups@.len() == 0),
    {
        self.test_groups.len() == 0
    }

    /// The canonical text of the condition, or an error when a test compares a
    /// float or a string.
    pub fn render(&self) -> (r: Result<String, ConditionError>)
        ensures
            condition_supported(*self) <==> r is Ok,
            r matches Ok(s) ==> s@ == condition_text(*self),
            r matches Err(ConditionError::UnsupportedShape { field_name, kind }) ==> exists|
                i: int,
                j: int,
            |
                0 <= i < self.test_groups@.len() && 0 <= j < self.test_groups@[i].tests@.len()
                    && !supported(#[trigger] self.test_groups@[i].tests@[j])
                    && self.test_groups@[i].tests@[j].field_name@ == field_name@
                    && self.test_groups@[i].tests@[j].kind == kind,
    {
        let n = self.test_groups.len();
        let mut k: usize = 0;
        while k < n
            invariant
                n == self.test_groups@.len(),
                k <= n,
                forall|j: int| 0 <= j < k ==> group_supported(#[trigger] self.test_groups@[j]),
            decreases n - k,
        {
            match first_unsupported(&self.test_groups[k].tests) {
                Some(e) => {
                    return Err(e);
                },
                None => {},
            }
            k = k + 1;
        }
        let mut out = String::new();
        if n == 1 {
            self.test_groups[0].push_text(&mut out);
        } else if n > 1 {
            let ghost texts = groups_texts(self.test_groups@);
            let mut i: usize = 0;
            while i < n
                invariant
                    n == self.test_groups@.len(),
                    n > 1,
                    i <= n,
                    condition_supported(*self),
                    texts == groups_texts(self.test_groups@),
                    out@ == join(texts.subrange(0, i as int), " OR "@),
                decreases n - i,
            {
                if i > 0 {
                    push_str(&mut out, " OR ");
                }
                self.test_groups[i].push_text(&mut out);
                proof {
                    reveal_strlit(" OR ");
                    assert(texts.subrange(0, i + 1) =~= texts.subrange(0, i as int).push(
                        texts[i as int],
                    ));
                    if i > 0 {
                        lemma_join_push(texts.subrange(0, i as int), texts[i as int], " OR "@);
                    } else {
                        assert(join(texts.subrange(0, 1), " OR "@) == texts[0]);
                    }
                    assert(out@ =~= join(texts.subrange(0, i + 1), " OR "@));
                }
                i = i + 1;
            }
            assert(texts.subrange(0, n as int) =~= texts);
        }
        assert(out@ =~= condition_text(*self));
        Ok(out)
    }
}

} // verus!
