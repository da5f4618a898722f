//! The record shapes the extractor decodes objects into.
use vstd::prelude::*;
use crate::condition::PlayerDataTest;
use crate::lang::LocalizedString;
use crate::store::{Shape, TypedRef};

verus! {

/// An object read by its name alone.
#[derive(Debug)]
pub struct Named {
    pub name: String,
}

/// A named integer constant (costs, damages).
#[derive(Debug)]
pub struct IntReference {
    pub name: String,
    pub value: i32,
}

/// A collectable relic type.
#[derive(Debug)]
pub struct CollectableItemRelicType {
    pub name: String,
    pub type_label: LocalizedString,
    pub type_description: LocalizedString,
    pub reward_amount: i32,
}

/// An enemy-journal record.
#[derive(Debug)]
pub struct EnemyJournalRecord {
    pub name: String,
    pub display_name: LocalizedString,
    pub kills_required: i32,
    pub record_type: i32,
    pub required_type: i32,
}

/// An item the save file counts; it may have no display name.
#[derive(Debug)]
pub struct SavedItem {
    pub name: String,
    pub display_name: Option<LocalizedString>,
}

/// How a tool is used.
#[derive(Debug)]
pub struct ToolUsageOptions {
    pub silk_required: i32,
    pub use_alt_for_quick_sling: u8,
}

/// A tool.
#[derive(Debug)]
pub struct ToolItem {
    pub name: String,
    pub kind: i32,
    pub count_key: TypedRef<SavedItem>,
    pub base_storage_amount: i32,
    pub replenish_resource: i32,
    pub replenish_usage: i32,
    pub damage_flags: i32,
    pub poison_damage_ticks: i32,
    pub usage_options: ToolUsageOptions,
}

/// One target of a quest: a count of a counter, or another test.
#[derive(Debug)]
pub struct QuestTarget {
    pub counter: TypedRef<Named>,
    pub count: i32,
    pub alt_test: PlayerDataTest,
}

/// A quest.
#[derive(Debug)]
pub struct Quest {
    pub name: String,
    pub inv_item_append_desc: LocalizedString,
    pub player_data_test: PlayerDataTest,
    pub reward_item: TypedRef<SavedItem>,
    pub reward_count: i32,
    pub reward_count_act3: i32,
    pub targets: Vec<QuestTarget>,
}

/// A cooldown timer; its delay is kept as the text of the stored float.
#[derive(Debug)]
pub struct TimerGroup {
    pub name: String,
    pub delay_text: String,
}

/// A damage tag; float fields are kept as the text of the stored value.
#[derive(Debug)]
pub struct DamageTag {
    pub name: String,
    pub damage_amount: i32,
    pub damage_cooldown_timer: TypedRef<TimerGroup>,
    pub delay_per_hit_text: String,
    pub is_tool_damage: u8,
    pub nail_element: i32,
    pub special_damage_type: i32,
    pub start_delay_text: String,
    pub total_hit_limit: i32,
}

/// A requirement on the state of a quest.
#[derive(Debug)]
pub struct QuestTest {
    pub quest: TypedRef<Quest>,
    pub check_available: u8,
    pub is_available: u8,
    pub check_accepted: u8,
    pub is_accepted: u8,
    pub check_completed_amount: u8,
    pub completed_amount: i32,
    pub check_completable: u8,
    pub is_completable: u8,
    pub check_completed: u8,
    pub is_completed: u8,
    pub check_was_ever_completed: u8,
    pub was_ever_completed: u8,
}

/// A shop item.
#[derive(Debug)]
pub struct ShopItem {
    pub name: String,
    pub display_name: LocalizedString,
    pub cost_reference: TypedRef<IntReference>,
    pub cost: i32,
    pub required_item: TypedRef<Named>,
    pub extra_appear_conditions: PlayerDataTest,
    pub quests_appear_conditions: Vec<QuestTest>,
}

/// The localized-string reference under its schema spelling.
pub type LocalisedString = LocalizedString;

/// The plural localized text under its schema spelling.
pub type LocalisedStringPlural = crate::lang::LocalizedStringPlural;

/// A cost is a named integer.
pub type CostReference = IntReference;

/// A quest read with its full base schema.
pub type FullQuestBase = Quest;

/// A tool read with its basic schema.
pub type ToolItemBasic = ToolItem;

/// Usage options of a tool under their schema name.
pub type UsageOptions = ToolUsageOptions;

/// Referenced objects read by name only.
pub type CollectableItem = Named;

pub type QuestTargetCounter = Named;

/// A decoded object: one variant per record shape.
#[derive(Debug)]
pub enum Record {
    IntReference(IntReference),
    CollectableItemRelicType(CollectableItemRelicType),
    EnemyJournalRecord(EnemyJournalRecord),
    SavedItem(SavedItem),
    ToolItem(ToolItem),
    Quest(Quest),
    TimerGroup(TimerGroup),
    DamageTag(DamageTag),
    ShopItem(ShopItem),
}

impl Shape for IntReference {
    open spec fn shape_of(rec: Record) -> Option<Self> {
        match rec {
            Record::IntReference(x) => Some(x),
            _ => None,
        }
    }

    fn cast(rec: &Record) -> (r: Option<&Self>) {
        match rec {
            Record::IntReference(x) => Some(x),
            _ => None,
        }
    }
}

impl Shape for CollectableItemRelicType {
    open spec fn shape_of(rec: Record) -> Option<Self> {
        match rec {
            Record::CollectableItemRelicType(x) => Some(x),
            _ => None,
        }
    }

    fn cast(rec: &Record) -> (r: Option<&Self>) {
        match rec {
            Record::CollectableItemRelicType(x) => Some(x),
            _ => None,
        }
    }
}

impl Shape for EnemyJournalRecord {
    open spec fn shape_of(rec: Record) -> Option<Self> {
        match rec {
            Record::EnemyJournalRecord(x) => Some(x),
            _ => None,
        }
    }

    fn cast(rec: &Record) -> (r: Option<&Self>) {
        match rec {
            Record::EnemyJournalRecord(x) => Some(x),
            _ => None,
        }
    }
}

impl Shape for SavedItem {
    open spec fn shape_of(rec: Record) -> Option<Self> {
        match rec {
            Record::SavedItem(x) => Some(x),
            _ => None,
        }
    }

    fn cast(rec: &Record) -> (r: Option<&Self>) {
        match rec {
            Record::SavedItem(x) => Some(x),
            _ => None,
        }
    }
}

impl Shape for ToolItem {
    open spec fn shape_of(rec: Record) -> Option<Self> {
        match rec {
            Record::ToolItem(x) => Some(x),
            _ => None,
        }
    }

    fn cast(rec: &Record) -> (r: Option<&Self>) {
        match rec {
            Record::ToolItem(x) => Some(x),
            _ => None,
        }
    }
}

impl Shape for Quest {
    open spec fn shape_of(rec: Record) -> Option<Self> {
        match rec {
            Record::Quest(x) => Some(x),
            _ => None,
        }
    }

    fn cast(rec: &Record) -> (r: Option<&Self>) {
        match rec {
            Record::Quest(x) => Some(x),
            _ => None,
        }
    }
}

impl Shape for TimerGroup {
    open spec fn shape_of(rec: Record) -> Option<Self> {
        match rec {
            Record::TimerGroup(x) => Some(x),
            _ => None,
        }
    }

    fn cast(rec: &Record) -> (r: Option<&Self>) {
        match rec {
            Record::TimerGroup(x) => Some(x),
            _ => None,
        }
    }
}

impl Shape for DamageTag {
    open spec fn shape_of(rec: Record) -> Option<Self> {
        match rec {
            Record::DamageTag(x) => Some(x),
            _ => None,
        }
    }

    fn cast(rec: &Record) -> (r: Option<&Self>) {
        match rec {
            Record::DamageTag(x) => Some(x),
            _ => None,
        }
    }
}

impl Shape for ShopItem {
    open spec fn shape_of(rec: Record) -> Option<Self> {
        match rec {
            Record::ShopItem(x) => Some(x),
            _ => None,
        }
    }

    fn cast(rec: &Record) -> (r: Option<&Self>) {
        match rec {
            Record::ShopItem(x) => Some(x),
            _ => None,
        }
    }
}

} // verus!
