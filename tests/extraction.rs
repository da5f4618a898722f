use indexmap::IndexMap;
use silksong_data_dump::condition::{PlayerDataTest, Test, TestGroup};
use silksong_data_dump::datasets::{
    CollectableItems, DamageTags, EnemyJournal, IntReferences, Quests, ShopItems, Tools,
};
use silksong_data_dump::enums::{
    NailElement, RecordTypes, RequiredTypes, SpecialDamageType, TestNumType, TestType, ToolDamageFlags,
    ToolItemType,
};
use silksong_data_dump::extract::extract;
use silksong_data_dump::lang::LocalizedString;
use silksong_data_dump::records::{
    CollectableItemRelicType, DamageTag, EnemyJournalRecord, IntReference, Quest, QuestTarget, QuestTest,
    Record, SavedItem, ShopItem, TimerGroup, ToolItem, ToolUsageOptions,
};
use silksong_data_dump::store::{Bundle, ErrorKind, ObjectRef, Resolver, StoredObject, TypeFilter, TypedRef};
use silksong_data_dump::table::Language;

fn id(path_id: i64) -> ObjectRef {
    ObjectRef { file_id: 0, path_id }
}

fn obj(path_id: i64, name: &str, class: &str, record: Option<Record>) -> StoredObject {
    StoredObject { id: id(path_id), name: name.to_string(), class_name: class.to_string(), record }
}

fn ls(sheet: &str, key: &str) -> LocalizedString {
    LocalizedString { sheet: sheet.to_string(), key: key.to_string() }
}

fn int_ref(name: &str, value: i32) -> Record {
    Record::IntReference(IntReference { name: name.to_string(), value })
}

fn lang() -> Language {
    let mut items = IndexMap::new();
    items.insert("PIN".to_string(), "Straight Pin".to_string());
    items.insert("RUINED".to_string(), "Ruined Tool".to_string());
    items.insert("RELIC".to_string(), "Choral Commandment".to_string());
    items.insert("MOSS".to_string(), "Moss Mother".to_string());
    items.insert("SHOP_NEEDLE".to_string(), "Needle Upgrade".to_string());
    items.insert("QUEST_DESC".to_string(), "Silk and Spite".to_string());
    let mut l = IndexMap::new();
    l.insert("items".to_string(), items);
    l
}

fn int_test(field: &str, cmp: TestNumType, v: i32) -> Test {
    Test {
        kind: TestType::Int,
        field_name: field.to_string(),
        bool_value: 0,
        num_type: cmp,
        int_value: v,
        string_value: String::new(),
        string_type: 0,
    }
}

fn no_condition() -> PlayerDataTest {
    PlayerDataTest { test_groups: vec![] }
}

fn cost_bundle() -> Bundle {
    Bundle {
        objects: vec![
            obj(1, "CostA", "CostReference", Some(int_ref("CostA", 10))),
            obj(2, "Other", "DamageReference", Some(int_ref("Other", 99))),
            obj(3, "CostB", "CostReference", Some(int_ref("CostB", -3))),
        ],
    }
}

#[test]
fn extraction_keeps_store_order_and_filters_by_exact_type() {
    let rows = extract::<IntReferences>(&cost_bundle(), &lang(), "costs", &TypeFilter::Exact("CostReference".to_string()))
        .unwrap();
    let got: Vec<(&str, i32)> = rows.iter().map(|r| (r.name.as_str(), r.value)).collect();
    assert_eq!(got, vec![("CostA", 10), ("CostB", -3)]);
}

#[test]
fn contains_filter_selects_type_family() {
    let f = TypeFilter::Contains("Tool".to_string());
    assert!(f.matches("ToolItemBasic"));
    assert!(f.matches("ToolItemSkill"));
    assert!(f.matches("Tool"));
    assert!(!f.matches("Quest"));
    assert!(!f.matches("Too"));
    assert!(TypeFilter::Contains(String::new()).matches("anything"));
    let e = TypeFilter::Exact("Quest".to_string());
    assert!(e.matches("Quest"));
    assert!(!e.matches("QuestType"));
}

#[test]
fn extraction_twice_gives_identical_rows() {
    let b = cost_bundle();
    let l = lang();
    let f = TypeFilter::Contains("Reference".to_string());
    let a = extract::<IntReferences>(&b, &l, "costs", &f).unwrap();
    let c = extract::<IntReferences>(&b, &l, "costs", &f).unwrap();
    let a: Vec<(String, i32)> = a.into_iter().map(|r| (r.name, r.value)).collect();
    let c: Vec<(String, i32)> = c.into_iter().map(|r| (r.name, r.value)).collect();
    assert_eq!(a, c);
    assert_eq!(a.len(), 3);
}

#[test]
fn schema_mismatch_fails_whole_extraction() {
    let mut b = cost_bundle();
    b.objects.push(obj(
        4,
        "Impostor",
        "CostReference",
        Some(Record::TimerGroup(TimerGroup { name: "Impostor".to_string(), delay_text: "1".to_string() })),
    ));
    b.objects.push(obj(5, "Undecodable", "CostReference", None));
    let err = extract::<IntReferences>(&b, &lang(), "costs", &TypeFilter::Exact("CostReference".to_string()))
        .unwrap_err();
    assert_eq!(err.dataset, "costs");
    assert_eq!(err.record, "Impostor");
    assert_eq!(err.kind, ErrorKind::SchemaMismatch);
}

#[test]
fn undecodable_record_is_schema_mismatch() {
    let b = Bundle { objects: vec![obj(5, "Undecodable", "CostReference", None)] };
    let err = extract::<IntReferences>(&b, &lang(), "damages", &TypeFilter::Exact("CostReference".to_string()))
        .unwrap_err();
    assert_eq!((err.dataset.as_str(), err.record.as_str(), err.kind), ("damages", "Undecodable", ErrorKind::SchemaMismatch));
}

#[test]
fn null_reference_is_absent_on_optional_path_only() {
    let b = cost_bundle();
    let l = lang();
    let res = Resolver { bundle: &b, lang: &l };
    let null: TypedRef<IntReference> = TypedRef::null();
    assert!(matches!(res.deref_optional(&null), Ok(None)));
    assert_eq!(res.deref(&null).unwrap_err(), ErrorKind::MissingReference);
    assert!(matches!(res.deref_name_optional(&null), Ok(None)));
    assert_eq!(res.deref_name(&null).unwrap_err(), ErrorKind::MissingReference);
}

#[test]
fn dangling_and_mistyped_references() {
    let mut b = cost_bundle();
    b.objects.push(obj(7, "Timer", "TimerGroup", Some(Record::TimerGroup(TimerGroup { name: "Timer".to_string(), delay_text: "0.5".to_string() }))));
    let l = lang();
    let res = Resolver { bundle: &b, lang: &l };
    let dangling: TypedRef<IntReference> = TypedRef::new(id(42));
    assert_eq!(res.deref_optional(&dangling).unwrap_err(), ErrorKind::MissingReference);
    let mistyped: TypedRef<IntReference> = TypedRef::new(id(7));
    assert_eq!(res.deref(&mistyped).unwrap_err(), ErrorKind::SchemaMismatch);
    let good: TypedRef<IntReference> = TypedRef::new(id(3));
    assert_eq!(res.deref(&good).unwrap().value, -3);
    assert_eq!(res.deref_name(&mistyped).unwrap(), "Timer");
    let other_file: TypedRef<IntReference> = TypedRef::new(ObjectRef { file_id: 1, path_id: 3 });
    assert_eq!(res.deref(&other_file).unwrap_err(), ErrorKind::MissingReference);
}

#[test]
fn collectable_items_resolve_type_label() {
    let b = Bundle {
        objects: vec![obj(1, "Relic1", "CollectableItemRelicType", Some(Record::CollectableItemRelicType(CollectableItemRelicType {
            name: "Relic1".to_string(),
            type_label: ls("Items", "RELIC"),
            type_description: ls("", ""),
            reward_amount: 150,
        })))],
    };
    let rows = extract::<CollectableItems>(&b, &lang(), "collectableitems", &TypeFilter::Contains("CollectableItemRelicType".to_string())).unwrap();
    assert_eq!(rows.len(), 1);
    assert_eq!(rows[0].name, "Relic1");
    assert_eq!(rows[0].display_name, "Choral Commandment");
    assert_eq!(rows[0].reward_amount, 150);
}

#[test]
fn missing_text_fails_with_lookup_kind() {
    let b = Bundle {
        objects: vec![obj(1, "Relic1", "CollectableItemRelicType", Some(Record::CollectableItemRelicType(CollectableItemRelicType {
            name: "Relic1".to_string(),
            type_label: ls("Items", "NOPE"),
            type_description: ls("", ""),
            reward_amount: 1,
        })))],
    };
    let err = extract::<CollectableItems>(&b, &lang(), "collectableitems", &TypeFilter::Exact("CollectableItemRelicType".to_string())).unwrap_err();
    assert_eq!(err.kind, ErrorKind::MissingKey);
    assert_eq!(err.record, "Relic1");
}

fn journal(record_type: i32, display: LocalizedString) -> Bundle {
    Bundle {
        objects: vec![obj(1, "Journal_Moss", "EnemyJournalRecord", Some(Record::EnemyJournalRecord(EnemyJournalRecord {
            name: "Journal_Moss".to_string(),
            display_name: display,
            kills_required: 3,
            record_type,
            required_type: 2,
        })))],
    }
}

#[test]
fn enemy_journal_rows() {
    let rows = extract::<EnemyJournal>(&journal(1, ls("items", "MOSS")), &lang(), "journalrecords", &TypeFilter::Exact("EnemyJournalRecord".to_string())).unwrap();
    assert_eq!(rows[0].name, "Moss Mother");
    assert_eq!(rows[0].kills_required, 3);
    assert_eq!(rows[0].record_type, RecordTypes::Other);
    assert_eq!(rows[0].required_type, RequiredTypes::RequiredSteelSoul);
    let f = TypeFilter::Exact("EnemyJournalRecord".to_string());
    assert_eq!(extract::<EnemyJournal>(&journal(9, ls("items", "MOSS")), &lang(), "j", &f).unwrap_err().kind, ErrorKind::UnknownVariant);
    assert_eq!(extract::<EnemyJournal>(&journal(0, ls("", "")), &lang(), "j", &f).unwrap_err().kind, ErrorKind::EmptyText);
    assert_eq!(extract::<EnemyJournal>(&journal(0, ls("Gone", "MOSS")), &lang(), "j", &f).unwrap_err().kind, ErrorKind::MissingSheet);
}

fn damage_bundle(timer: i64, nail: i32) -> Bundle {
    Bundle {
        objects: vec![
            obj(1, "Spikes", "DamageTag", Some(Record::DamageTag(DamageTag {
                name: "Spikes".to_string(),
                damage_amount: 2,
                damage_cooldown_timer: TypedRef::new(id(timer)),
                delay_per_hit_text: "0.25".to_string(),
                is_tool_damage: 1,
                nail_element: nail,
                special_damage_type: 2,
                start_delay_text: "0".to_string(),
                total_hit_limit: 5,
            }))),
            obj(2, "Cooldown", "TimerGroup", Some(Record::TimerGroup(TimerGroup { name: "Cooldown".to_string(), delay_text: "0.5".to_string() }))),
        ],
    }
}

#[test]
fn damage_tags_show_timer_delay() {
    let f = TypeFilter::Exact("DamageTag".to_string());
    let rows = extract::<DamageTags>(&damage_bundle(2, 1), &lang(), "damagetags", &f).unwrap();
    assert_eq!(rows.len(), 1);
    assert_eq!(rows[0].damage_cooldown_timer.as_deref(), Some("0.5s"));
    assert_eq!(rows[0].nail_element, NailElement::Fire);
    assert_eq!(rows[0].special_damage_type, SpecialDamageType::Lightning);
    assert_eq!(rows[0].delay_per_hit, "0.25");
    let rows = extract::<DamageTags>(&damage_bundle(0, 0), &lang(), "damagetags", &f).unwrap();
    assert_eq!(rows[0].damage_cooldown_timer, None);
    assert_eq!(rows[0].nail_element, NailElement::NoElement);
    assert_eq!(extract::<DamageTags>(&damage_bundle(2, 7), &lang(), "damagetags", &f).unwrap_err().kind, ErrorKind::UnknownVariant);
    assert_eq!(extract::<DamageTags>(&damage_bundle(3, 0), &lang(), "damagetags", &f).unwrap_err().kind, ErrorKind::MissingReference);
}

fn tool(count_key: i64, silk: i32, storage: i32, resource: i32) -> Record {
    Record::ToolItem(ToolItem {
        name: "Tool_Pin".to_string(),
        kind: 0,
        count_key: TypedRef::new(id(count_key)),
        base_storage_amount: storage,
        replenish_resource: resource,
        replenish_usage: 0,
        damage_flags: 2,
        poison_damage_ticks: 0,
        usage_options: ToolUsageOptions { silk_required: silk, use_alt_for_quick_sling: 0 },
    })
}

fn saved(path: i64, name: &str, display: Option<LocalizedString>) -> StoredObject {
    obj(path, name, "SavedItem", Some(Record::SavedItem(SavedItem { name: name.to_string(), display_name: display })))
}

#[test]
fn tools_use_counted_item_name_unless_ruined() {
    let f = TypeFilter::Contains("Tool".to_string());
    let b = Bundle {
        objects: vec![
            obj(1, "Tool_Pin", "ToolItemBasic", Some(tool(10, 1, 8, 0))),
            obj(2, "Tool_Ruined", "ToolItemSkill", Some(tool(11, 0, 0, 0))),
            obj(3, "Tool_Plain", "ToolItemBasic", Some(tool(0, 0, 5, -1))),
            saved(10, "PinCount", Some(ls("Items", "PIN"))),
            saved(11, "RuinedCount", Some(ls("Items", "RUINED"))),
        ],
    };
    let rows = extract::<Tools>(&b, &lang(), "toolitems", &f).unwrap();
    assert_eq!(rows.len(), 3);
    assert_eq!(rows[0].name, "Straight Pin");
    assert_eq!(rows[0].replenish_storage, Some(8));
    assert!(rows[0].silk_required);
    assert_eq!(rows[0].kind, ToolItemType::Red);
    assert_eq!(rows[0].damage_flags, ToolDamageFlags::Spearing);
    assert_eq!(rows[1].name, "Tool_Pin");
    assert_eq!(rows[1].replenish_storage, None);
    assert!(!rows[1].silk_required);
    assert_eq!(rows[2].replenish_storage, None);
    let bad = Bundle { objects: vec![obj(1, "Tool_Pin", "ToolItemBasic", Some(tool(0, 2, 0, 0)))] };
    assert_eq!(extract::<Tools>(&bad, &lang(), "toolitems", &f).unwrap_err().kind, ErrorKind::UnexpectedValue);
}

#[test]
fn quests_render_condition_and_targets() {
    let alt = PlayerDataTest {
        test_groups: vec![TestGroup { tests: vec![int_test("A", TestNumType::Equal, 1), int_test("B", TestNumType::NotEqual, 2)] }],
    };
    let quest = Quest {
        name: "Quest_Silk".to_string(),
        inv_item_append_desc: ls("Items", "QUEST_DESC"),
        player_data_test: PlayerDataTest {
            test_groups: vec![
                TestGroup { tests: vec![int_test("X", TestNumType::Equal, 1)] },
                TestGroup { tests: vec![int_test("Y", TestNumType::Equal, 2)] },
            ],
        },
        reward_item: TypedRef::new(id(20)),
        reward_count: 1,
        reward_count_act3: 2,
        targets: vec![
            QuestTarget { counter: TypedRef::new(id(21)), count: 3, alt_test: no_condition() },
            QuestTarget { counter: TypedRef::null(), count: 0, alt_test: alt },
        ],
    };
    let b = Bundle {
        objects: vec![
            obj(1, "Quest_Silk", "Quest", Some(Record::Quest(quest))),
            saved(20, "Rosary_Set", None),
            obj(21, "Counter_Moss", "QuestTargetCounter", None),
        ],
    };
    let rows = extract::<Quests>(&b, &lang(), "quests", &TypeFilter::Exact("Quest".to_string())).unwrap();
    assert_eq!(rows.len(), 1);
    assert_eq!(rows[0].name, "Silk and Spite");
    assert_eq!(rows[0].reward_item, "Rosary_Set");
    assert_eq!(rows[0].condition, "X = 1 OR Y = 2");
    assert_eq!(rows[0].requirements, "3 Counter_Moss (A = 1 AND B != 2) ");
    assert_eq!((rows[0].reward_count, rows[0].reward_count_act3), (1, 2));
}

#[test]
fn quest_without_description_keeps_its_name() {
    let quest = Quest {
        name: "Quest_Plain".to_string(),
        inv_item_append_desc: ls("", ""),
        player_data_test: no_condition(),
        reward_item: TypedRef::null(),
        reward_count: 0,
        reward_count_act3: 0,
        targets: vec![],
    };
    let b = Bundle { objects: vec![obj(1, "Quest_Plain", "Quest", Some(Record::Quest(quest)))] };
    let rows = extract::<Quests>(&b, &lang(), "quests", &TypeFilter::Exact("Quest".to_string())).unwrap();
    assert_eq!(rows[0].name, "Quest_Plain");
    assert_eq!(rows[0].reward_item, "");
    assert_eq!(rows[0].condition, "");
    assert_eq!(rows[0].requirements, "");
}

fn quest_test(quest: i64) -> QuestTest {
    QuestTest {
        quest: TypedRef::new(id(quest)),
        check_available: 1,
        is_available: 1,
        check_accepted: 1,
        is_accepted: 0,
        check_completed_amount: 1,
        completed_amount: 2,
        check_completable: 0,
        is_completable: 0,
        check_completed: 1,
        is_completed: 0,
        check_was_ever_completed: 0,
        was_ever_completed: 0,
    }
}

fn shop(cost_ref: i64, conditions: PlayerDataTest, quests: Vec<QuestTest>) -> Record {
    Record::ShopItem(ShopItem {
        name: "Shop_Needle".to_string(),
        display_name: ls("Items", "SHOP_NEEDLE"),
        cost_reference: TypedRef::new(id(cost_ref)),
        cost: 80,
        required_item: TypedRef::new(id(31)),
        extra_appear_conditions: conditions,
        quests_appear_conditions: quests,
    })
}

fn plain_quest(name: &str) -> Record {
    Record::Quest(Quest {
        name: name.to_string(),
        inv_item_append_desc: ls("", ""),
        player_data_test: no_condition(),
        reward_item: TypedRef::null(),
        reward_count: 0,
        reward_count_act3: 0,
        targets: vec![],
    })
}

#[test]
fn shop_items_resolve_costs_conditions_and_quests() {
    let cond = PlayerDataTest { test_groups: vec![TestGroup { tests: vec![int_test("Act", TestNumType::MoreThan, 1)] }] };
    let b = Bundle {
        objects: vec![
            obj(1, "Shop_Needle", "ShopItem", Some(shop(30, cond, vec![quest_test(40)]))),
            obj(2, "Shop_Cheap", "ShopItem", Some(shop(0, no_condition(), vec![]))),
            obj(30, "Cost_Big", "CostReference", Some(int_ref("Cost_Big", 450))),
            obj(31, "Pale_Oil", "CollectableItem", None),
            obj(40, "Quest_Forge", "Quest", Some(plain_quest("Quest_Forge"))),
        ],
    };
    let rows = extract::<ShopItems>(&b, &lang(), "shopitems", &TypeFilter::Exact("ShopItem".to_string())).unwrap();
    assert_eq!(rows.len(), 2);
    assert_eq!(rows[0].name, "Needle Upgrade");
    assert_eq!(rows[0].internal_name, "Shop_Needle");
    assert_eq!(rows[0].cost, 450);
    assert_eq!(rows[0].item.as_deref(), Some("Pale_Oil"));
    assert_eq!(rows[0].conditions.as_deref(), Some("Act > 1"));
    assert_eq!(rows[0].quest.as_deref(), Some("'Quest_Forge' available not accepted completedamount 2 not completed"));
    assert_eq!(rows[1].cost, 80);
    assert_eq!(rows[1].conditions, None);
    assert_eq!(rows[1].quest, None);
}

#[test]
fn shop_quest_reference_is_required() {
    let b = Bundle { objects: vec![obj(1, "Shop_Needle", "ShopItem", Some(shop(0, no_condition(), vec![quest_test(0)]))), obj(31, "Pale_Oil", "CollectableItem", None)] };
    let err = extract::<ShopItems>(&b, &lang(), "shopitems", &TypeFilter::Exact("ShopItem".to_string())).unwrap_err();
    assert_eq!(err.kind, ErrorKind::MissingReference);
}
