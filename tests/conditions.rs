use silksong_data_dump::condition::{ConditionError, PlayerDataTest, Test, TestGroup};
use silksong_data_dump::enums::{ReplenishResources, TestNumType, TestType, ToolDamageFlags};

fn test(field: &str, kind: TestType, cmp: TestNumType, bool_value: u8, int_value: i32) -> Test {
    Test {
        kind,
        field_name: field.to_string(),
        bool_value,
        num_type: cmp,
        int_value,
        string_value: String::new(),
        string_type: 0,
    }
}

fn group(tests: Vec<Test>) -> TestGroup {
    TestGroup { tests }
}

fn tree(groups: Vec<TestGroup>) -> PlayerDataTest {
    PlayerDataTest { test_groups: groups }
}

#[test]
fn zero_groups_render_empty() {
    let c = tree(vec![]);
    assert!(c.is_vacuous());
    assert_eq!(c.render().unwrap(), "");
}

#[test]
fn single_bool_test_renders_bare() {
    let c = tree(vec![group(vec![test("HasLantern", TestType::Bool, TestNumType::Equal, 1, 0)])]);
    assert_eq!(c.render().unwrap(), "HasLantern = true");
}

#[test]
fn false_bool_test() {
    let t = test("Visited", TestType::Bool, TestNumType::Equal, 0, 0);
    assert_eq!(t.render().unwrap(), "Visited = false");
}

#[test]
fn two_tests_in_one_group_are_parenthesized() {
    let c = tree(vec![group(vec![
        test("A", TestType::Int, TestNumType::Equal, 0, 1),
        test("B", TestType::Int, TestNumType::NotEqual, 0, 2),
    ])]);
    assert_eq!(c.render().unwrap(), "(A = 1 AND B != 2)");
}

#[test]
fn two_single_test_groups_join_with_or() {
    let c = tree(vec![
        group(vec![test("X", TestType::Int, TestNumType::Equal, 0, 1)]),
        group(vec![test("Y", TestType::Int, TestNumType::Equal, 0, 2)]),
    ]);
    assert_eq!(c.render().unwrap(), "X = 1 OR Y = 2");
}

#[test]
fn mixed_groups_and_comparators() {
    let c = tree(vec![
        group(vec![
            test("Act", TestType::Enum, TestNumType::MoreThan, 0, 2),
            test("Rosaries", TestType::Int, TestNumType::LessThan, 0, -150),
            test("Met", TestType::Bool, TestNumType::Equal, 7, 0),
        ]),
        group(vec![]),
        group(vec![test("Z", TestType::Int, TestNumType::Equal, 0, 0)]),
    ]);
    assert_eq!(c.render().unwrap(), "(Act > 2 AND Rosaries < -150 AND Met = true) OR  OR Z = 0");
}

#[test]
fn extreme_integers_render_exactly() {
    let lo = test("Lo", TestType::Int, TestNumType::Equal, 0, i32::MIN);
    let hi = test("Hi", TestType::Int, TestNumType::Equal, 0, i32::MAX);
    assert_eq!(lo.render().unwrap(), "Lo = -2147483648");
    assert_eq!(hi.render().unwrap(), "Hi = 2147483647");
}

#[test]
fn float_test_is_unsupported() {
    let c = tree(vec![group(vec![
        test("A", TestType::Int, TestNumType::Equal, 0, 1),
        test("Speed", TestType::Float, TestNumType::MoreThan, 0, 0),
    ])]);
    match c.render() {
        Err(ConditionError::UnsupportedShape { field_name, kind }) => {
            assert_eq!(field_name, "Speed");
            assert_eq!(kind, TestType::Float);
        },
        Ok(s) => panic!("rendered {s}"),
    }
}

#[test]
fn string_test_is_unsupported() {
    let g = group(vec![test("Scene", TestType::String, TestNumType::Equal, 0, 0)]);
    assert!(g.render().is_err());
    let t = test("Scene", TestType::String, TestNumType::Equal, 0, 0);
    assert!(t.render().is_err());
}

#[test]
fn group_render_matches_tree_render() {
    let g = group(vec![
        test("A", TestType::Int, TestNumType::Equal, 0, 1),
        test("B", TestType::Int, TestNumType::NotEqual, 0, 2),
    ]);
    assert_eq!(g.render().unwrap(), "(A = 1 AND B != 2)");
    assert_eq!(group(vec![]).render().unwrap(), "");
}

#[test]
fn enum_repr_round_trip() {
    assert_eq!(TestType::from_repr(3), Some(TestType::Enum));
    assert_eq!(TestType::from_repr(5), None);
    assert_eq!(ToolDamageFlags::from_repr(4), Some(ToolDamageFlags::Searing));
    assert_eq!(ToolDamageFlags::from_repr(3), None);
    assert_eq!(ReplenishResources::from_repr(-1), Some(ReplenishResources::NoResource));
    assert_eq!(ReplenishResources::NoResource.repr(), -1);
    assert_eq!(TestNumType::MoreThan.repr(), 3);
}
