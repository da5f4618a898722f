//! The datasets: for each, the row it writes and its projection from the
//! record shape, with references and localized text resolved.
use vstd::prelude::*;
use crate::condition::{PlayerDataTest, condition_supported, condition_text};
use crate::enums::{NailElement, RecordTypes, RequiredTypes, SpecialDamageType, ToolDamageFlags, ToolItemType, ReplenishResources, ReplenishUsage};
use crate::extract::Projection;
use crate::lang::{LocalizedString, LookupError, resolve_spec};
use crate::records::{CollectableItemRelicType, DamageTag, EnemyJournalRecord, IntReference, Quest, QuestTarget, QuestTest, SavedItem, ShopItem, TimerGroup, ToolItem};
use crate::store::{Bundle, ErrorKind, Resolver, deref_name_optional_spec, deref_optional_spec, deref_spec};
use crate::table::LanguageView;
use crate::text::{int_text, push_int, push_str};

verus! {

pub open spec fn lookup_kind(e: LookupError) -> ErrorKind {
    match e {
        LookupError::EmptyReference => ErrorKind::EmptyText,
        LookupError::MissingSheet => ErrorKind::MissingSheet,
        LookupError::MissingKey => ErrorKind::MissingKey,
    }
}

/// The text a localized string must resolve to.
pub open spec fn text_spec(lang: LanguageView, s: LocalizedString) -> Result<Seq<char>, ErrorKind> {
    match resolve_spec(lang, s.sheet@, s.key@) {
        Ok(t) => Ok(t),
        Err(e) => Err(lookup_kind(e)),
    }
}

/// The text of a localized string that may be unset.
pub open spec fn optional_text_spec(lang: LanguageView, s: LocalizedString) -> Result<Option<Seq<char>>, ErrorKind> {
    if s.sheet@.len() == 0 && s.key@.len() == 0 {
        Ok(None)
    } else {
        match text_spec(lang, s) {
            Ok(t) => Ok(Some(t)),
            Err(k) => Err(k),
        }
    }
}

/// The rendered text of a condition.
pub open spec fn condition_spec(c: PlayerDataTest) -> Result<Seq<char>, ErrorKind> {
    if condition_supported(c) {
        Ok(condition_text(c))
    } else {
        Err(ErrorKind::UnsupportedCondition)
    }
}

fn localized(res: &Resolver, s: &LocalizedString) -> (r: Result<String, ErrorKind>)
    ensures
        r matches Ok(t) ==> text_spec(res.lang_view(), *s) == Ok::<Seq<char>, ErrorKind>(t@),
        r matches Err(k) ==> text_spec(res.lang_view(), *s) == Err::<Seq<char>, ErrorKind>(k),
{
    match s.get(res.lang) {
        Ok(t) => Ok(t.clone()),
        Err(LookupError::EmptyReference) => Err(ErrorKind::EmptyText),
        Err(LookupError::MissingSheet) => Err(ErrorKind::MissingSheet),
        Err(LookupError::MissingKey) => Err(ErrorKind::MissingKey),
    }
}

fn optional_localized(res: &Resolver, s: &LocalizedString) -> (r: Result<Option<String>, ErrorKind>)
    ensures
        r matches Ok(Some(t)) ==> optional_text_spec(res.lang_view(), *s) == Ok::<
            Option<Seq<char>>,
            ErrorKind,
        >(Some(t@)),
        r matches Ok(None) ==> optional_text_spec(res.lang_view(), *s) == Ok::<
            Option<Seq<char>>,
            ErrorKind,
        >(None),
        r matches Err(k) ==> optional_text_spec(res.lang_view(), *s) == Err::<
            Option<Seq<char>>,
            ErrorKind,
        >(k),
{
    if s.is_unset() {
        return Ok(None);
    }
    match localized(res, s) {
        Ok(t) => Ok(Some(t)),
        Err(k) => Err(k),
    }
}

fn condition(c: &PlayerDataTest) -> (r: Result<String, ErrorKind>)
    ensures
        r matches Ok(t) ==> condition_spec(*c) == Ok::<Seq<char>, ErrorKind>(t@),
        r matches Err(k) ==> condition_spec(*c) == Err::<Seq<char>, ErrorKind>(k),
{
    match c.render() {
        Ok(t) => Ok(t),
        Err(_) => Err(ErrorKind::UnsupportedCondition),
    }
}

// ---- costs and damages ----

/// A row of a named-integer dataset.
#[derive(Clone, Debug)]
pub struct IntReferenceData {
    pub name: String,
    pub value: i32,
}

pub struct IntReferenceRow {
    pub name: Seq<char>,
    pub value: i32,
}

impl View for IntReferenceData {
    type V = IntReferenceRow;

    open spec fn view(&self) -> IntReferenceRow {
        IntReferenceRow { name: self.name@, value: self.value }
    }
}

/// Named integers: name and value, as stored.
pub struct IntReferences;

impl Projection for IntReferences {
    type Item = IntReference;

    type Row = IntReferenceData;

    open spec fn project_spec(b: Bundle, lang: LanguageView, item: IntReference) -> Result<IntReferenceRow, ErrorKind> {
        Ok(IntReferenceRow { name: item.name@, value: item.value })
    }

    fn project(res: &Resolver, item: &IntReference) -> (r: Result<IntReferenceData, ErrorKind>) {
        Ok(IntReferenceData { name: item.name.clone(), value: item.value })
    }
}

// ---- collectable items ----

/// A row of the collectable-items dataset.
#[derive(Clone, Debug)]
pub struct CollectableItemData {
    pub name: String,
    pub display_name: String,
    pub reward_amount: i32,
}

pub struct CollectableItemRow {
    pub name: Seq<char>,
    pub display_name: Seq<char>,
    pub reward_amount: i32,
}

impl View for CollectableItemData {
    type V = CollectableItemRow;

    open spec fn view(&self) -> CollectableItemRow {
        CollectableItemRow {
            name: self.name@,
            display_name: self.display_name@,
            reward_amount: self.reward_amount,
        }
    }
}

/// Relic types: internal name, the text of the type label, reward amount.
pub struct CollectableItems;

impl Projection for CollectableItems {
    type Item = CollectableItemRelicType;

    type Row = CollectableItemData;

    open spec fn project_spec(b: Bundle, lang: LanguageView, item: CollectableItemRelicType) -> Result<
        CollectableItemRow,
        ErrorKind,
    > {
        match text_spec(lang, item.type_label) {
            Err(k) => Err(k),
            Ok(t) => Ok(
                CollectableItemRow { name: item.name@, display_name: t, reward_amount: item.reward_amount },
            ),
        }
    }

    fn project(res: &Resolver, item: &CollectableItemRelicType) -> (r: Result<CollectableItemData, ErrorKind>) {
        let display_name = localized(res, &item.type_label)?;
        Ok(CollectableItemData { name: item.name.clone(), display_name, reward_amount: item.reward_amount })
    }
}

// ---- enemy journal ----

/// A row of the enemy-journal dataset.
#[derive(Clone, Debug)]
pub struct EnemyJournalRecordData {
    pub name: String,
    pub kills_required: i32,
    pub record_type: RecordTypes,
    pub required_type: RequiredTypes,
}

pub struct EnemyJournalRow {
    pub name: Seq<char>,
    pub kills_required: i32,
    pub record_type: RecordTypes,
    pub required_type: RequiredTypes,
}

impl View for EnemyJournalRecordData {
    type V = EnemyJournalRow;

    open spec fn view(&self) -> EnemyJournalRow {
        EnemyJournalRow {
            name: self.name@,
            kills_required: self.kills_required,
            record_type: self.record_type,
            required_type: self.required_type,
        }
    }
}

/// Journal records: displayed name, kills required, and the two kinds.
pub struct EnemyJournal;

impl Projection for EnemyJournal {
    type Item = EnemyJournalRecord;

    type Row = EnemyJournalRecordData;

    open spec fn project_spec(b: Bundle, lang: LanguageView, item: EnemyJournalRecord) -> Result<
        EnemyJournalRow,
        ErrorKind,
    > {
        match text_spec(lang, item.display_name) {
            Err(k) => Err(k),
            Ok(t) => match (
                RecordTypes::spec_from_repr(item.record_type),
                RequiredTypes::spec_from_repr(item.required_type),
            ) {
                (Some(rt), Some(qt)) => Ok(
                    EnemyJournalRow {
                        name: t,
                        kills_required: item.kills_required,
                        record_type: rt,
                        required_type: qt,
                    },
                ),
                _ => Err(ErrorKind::UnknownVariant),
            },
        }
    }

    fn project(res: &Resolver, item: &EnemyJournalRecord) -> (r: Result<EnemyJournalRecordData, ErrorKind>) {
        let name = localized(res, &item.display_name)?;
        let record_type = match RecordTypes::from_repr(item.record_type) {
            Some(v) => v,
            None => {
                return Err(ErrorKind::UnknownVariant);
            },
        };
        let required_type = match RequiredTypes::from_repr(item.required_type) {
            Some(v) => v,
            None => {
                return Err(ErrorKind::UnknownVariant);
            },
        };
        Ok(EnemyJournalRecordData { name, kills_required: item.kills_required, record_type, required_type })
    }
}

// ---- damage tags ----

/// A row of the damage-tag dataset; float fields are the stored values' text.
#[derive(Clone, Debug)]
pub struct DamageTagData {
    pub name: String,
    pub damage_amount: i32,
    pub damage_cooldown_timer: Option<String>,
    pub delay_per_hit: String,
    pub is_tool_damage: u8,
    pub nail_element: NailElement,
    pub special_damage_type: SpecialDamageType,
    pub start_delay: String,
    pub total_hit_limit: i32,
}

pub struct DamageTagRow {
    pub name: Seq<char>,
    pub damage_amount: i32,
    pub damage_cooldown_timer: Option<Seq<char>>,
    pub delay_per_hit: Seq<char>,
    pub is_tool_damage: u8,
    pub nail_element: NailElement,
    pub special_damage_type: SpecialDamageType,
    pub start_delay: Seq<char>,
    pub total_hit_limit: i32,
}

pub open spec fn opt_view(o: Option<String>) -> Option<Seq<char>> {
    match o {
        Some(s) => Some(s@),
        None => None,
    }
}

impl View for DamageTagData {
    type V = DamageTagRow;

    open spec fn view(&self) -> DamageTagRow {
        DamageTagRow {
            name: self.name@,
            damage_amount: self.damage_amount,
            damage_cooldown_timer: opt_view(self.damage_cooldown_timer),
            delay_per_hit: self.delay_per_hit@,
            is_tool_damage: self.is_tool_damage,
            nail_element: self.nail_element,
            special_damage_type: self.special_damage_type,
            start_delay: self.start_delay@,
            total_hit_limit: self.total_hit_limit,
        }
    }
}

/// Damage tags: the cooldown timer, when set, is shown as its delay with `s`.
pub struct DamageTags;

impl Projection for DamageTags {
    type Item = DamageTag;

    type Row = DamageTagData;

    open spec fn project_spec(b: Bundle, lang: LanguageView, item: DamageTag) -> Result<DamageTagRow, ErrorKind> {
        match deref_optional_spec::<TimerGroup>(b, item.damage_cooldown_timer.object) {
            Err(k) => Err(k),
            Ok(timer) => match (
                NailElement::spec_from_repr(item.nail_element),
                SpecialDamageType::spec_from_repr(item.special_damage_type),
            ) {
                (Some(ne), Some(sd)) => Ok(
                    DamageTagRow {
                        name: item.name@,
                        damage_amount: item.damage_amount,
                        damage_cooldown_timer: match timer {
                            Some(t) => Some(t.delay_text@ + "s"@),
                            None => None,
                        },
                        delay_per_hit: item.delay_per_hit_text@,
                        is_tool_damage: item.is_tool_damage,
                        nail_element: ne,
                        special_damage_type: sd,
                        start_delay: item.start_delay_text@,
                        total_hit_limit: item.total_hit_limit,
                    },
                ),
                _ => Err(ErrorKind::UnknownVariant),
            },
        }
    }

    fn project(res: &Resolver, item: &DamageTag) -> (r: Result<DamageTagData, ErrorKind>) {
        let timer = res.deref_optional(&item.damage_cooldown_timer)?;
        let nail_element = match NailElement::from_repr(item.nail_element) {
            Some(v) => v,
            None => {
                return Err(ErrorKind::UnknownVariant);
            },
        };
        let special_damage_type = match SpecialDamageType::from_repr(item.special_damage_type) {
            Some(v) => v,
            None => {
                return Err(ErrorKind::UnknownVariant);
            },
        };
        let damage_cooldown_timer = match timer {
            Some(t) => {
                let mut s = t.delay_text.clone();
                push_str(&mut s, "s");
                Some(s)
            },
            None => None,
        };
        Ok(
            DamageTagData {
                name: item.name.clone(),
                damage_amount: item.damage_amount,
                damage_cooldown_timer,
                delay_per_hit: item.delay_per_hit_text.clone(),
                is_tool_damage: item.is_tool_damage,
                nail_element,
                special_damage_type,
                start_delay: item.start_delay_text.clone(),
                total_hit_limit: item.total_hit_limit,
            },
        )
    }
}

// ---- tools ----

/// A row of the tools dataset. `replenish_storage` is the storage amount a
/// replenish cost is computed from, present when the tool is replenished.
#[derive(Clone, Debug)]
pub struct ToolItemData {
    pub kind: ToolItemType,
    pub name: String,
    pub damage_flags: ToolDamageFlags,
    pub poison_damage_ticks: i32,
    pub replenish_storage: Option<i32>,
    pub silk_required: bool,
}

pub struct ToolItemRow {
    pub kind: ToolItemType,
    pub name: Seq<char>,
    pub damage_flags: ToolDamageFlags,
    pub poison_damage_ticks: i32,
    pub replenish_storage: Option<i32>,
    pub silk_required: bool,
}

impl View for ToolItemData {
    type V = ToolItemRow;

    open spec fn view(&self) -> ToolItemRow {
        ToolItemRow {
            kind: self.kind,
            name: self.name@,
            damage_flags: self.damage_flags,
            poison_damage_ticks: self.poison_damage_ticks,
            replenish_storage: self.replenish_storage,
            silk_required: self.silk_required,
        }
    }
}

/// The display name of a tool's counted item, unless it is the placeholder
/// of ruined tools.
pub open spec fn tool_display_spec(lang: LanguageView, saved: Option<SavedItem>) -> Result<Option<Seq<char>>, ErrorKind> {
    match saved {
        None => Ok(None),
        Some(item) => match item.display_name {
            None => Ok(None),
            Some(ls) => match text_spec(lang, ls) {
                Err(k) => Err(k),
                Ok(t) => if t == "Ruined Tool"@ {
                    Ok(None)
                } else {
                    Ok(Some(t))
                },
            },
        },
    }
}

/// Tools: named by their counted item's display text when there is one; the
/// replenish storage is kept when it is non-zero and a resource is set.
pub struct Tools;

impl Projection for Tools {
    type Item = ToolItem;

    type Row = ToolItemData;

    open spec fn project_spec(b: Bundle, lang: LanguageView, item: ToolItem) -> Result<ToolItemRow, ErrorKind> {
        match deref_optional_spec::<SavedItem>(b, item.count_key.object) {
            Err(k) => Err(k),
            Ok(saved) => match tool_display_spec(lang, saved) {
                Err(k) => Err(k),
                Ok(display) => match (
                    ReplenishUsage::spec_from_repr(item.replenish_usage),
                    ReplenishResources::spec_from_repr(item.replenish_resource),
                    ToolItemType::spec_from_repr(item.kind),
                    ToolDamageFlags::spec_from_repr(item.damage_flags),
                ) {
                    (Some(usage), Some(resource), Some(kind), Some(flags)) => if !(usage
                        is Percentage) || !(item.usage_options.silk_required == 0
                        || item.usage_options.silk_required == 1) {
                        Err(ErrorKind::UnexpectedValue)
                    } else {
                        Ok(
                            ToolItemRow {
                                kind,
                                name: match display {
                                    Some(t) => t,
                                    None => item.name@,
                                },
                                damage_flags: flags,
                                poison_damage_ticks: item.poison_damage_ticks,
                                replenish_storage: if item.base_storage_amount != 0 && !(resource
                                    is NoResource) {
                                    Some(item.base_storage_amount)
                                } else {
                                    None
                                },
                                silk_required: item.usage_options.silk_required == 1,
                            },
                        )
                    },
                    _ => Err(ErrorKind::UnknownVariant),
                },
            },
        }
    }

    fn project(res: &Resolver, item: &ToolItem) -> (r: Result<ToolItemData, ErrorKind>) {
        let saved = res.deref_optional(&item.count_key)?;
        let display: Option<String> = match saved {
            None => None,
            Some(saved_item) => match &saved_item.display_name {
                None => None,
                Some(ls) => {
                    let t = localized(res, ls)?;
                    let ruined = "Ruined Tool".to_owned();
                    if t == ruined {
                        None
                    } else {
                        Some(t)
                    }
                },
            },
        };
        let usage = ReplenishUsage::from_repr(item.replenish_usage);
        let resource = ReplenishResources::from_repr(item.replenish_resource);
        let kind = ToolItemType::from_repr(item.kind);
        let flags = ToolDamageFlags::from_repr(item.damage_flags);
        match (usage, resource, kind, flags) {
            (Some(usage), Some(resource), Some(kind), Some(flags)) => {
                let silk = item.usage_options.silk_required;
                match usage {
                    ReplenishUsage::Percentage => {},
                    _ => {
                        return Err(ErrorKind::UnexpectedValue);
                    },
                }
                if !(silk == 0 || silk == 1) {
                    return Err(ErrorKind::UnexpectedValue);
                }
                let replenish_storage = match resource {
                    ReplenishResources::NoResource => None,
                    _ => if item.base_storage_amount != 0 {
                        Some(item.base_storage_amount)
                    } else {
                        None
                    },
                };
                let name = match display {
                    Some(t) => t,
                    None => item.name.clone(),
                };
                Ok(
                    ToolItemData {
                        kind,
                        name,
                        damage_flags: flags,
                        poison_damage_ticks: item.poison_damage_ticks,
                        replenish_storage,
                        silk_required: silk == 1,
                    },
                )
            },
            _ => Err(ErrorKind::UnknownVariant),
        }
    }
}

// ---- quests ----

/// A row of the quests dataset.
#[derive(Clone, Debug)]
pub struct QuestData {
    pub name: String,
    pub reward_item: String,
    pub reward_count: i32,
    pub reward_count_act3: i32,
    pub requirements: String,
    pub condition: String,
}

pub struct QuestRow {
    pub name: Seq<char>,
    pub reward_item: Seq<char>,
    pub reward_count: i32,
    pub reward_count_act3: i32,
    pub requirements: Seq<char>,
    pub condition: Seq<char>,
}

impl View for QuestData {
    type V = QuestRow;

    open spec fn view(&self) -> QuestRow {
        QuestRow {
            name: self.name@,
            reward_item: self.reward_item@,
            reward_count: self.reward_count,
            reward_count_act3: self.reward_count_act3,
            requirements: self.requirements@,
            condition: self.condition@,
        }
    }
}

/// One target: `<count> <counter> ` when it has no alternative test, else
/// `<test> `.
pub open spec fn target_spec(b: Bundle, t: QuestTarget) -> Result<Seq<char>, ErrorKind> {
    match deref_name_optional_spec(b, t.counter.object) {
        Err(k) => Err(k),
        Ok(counter) => {
            let item = match counter {
                Some(n) => n,
                None => Seq::empty(),
            };
            if t.alt_test.test_groups@.len() == 0 {
                Ok(int_text(t.count as int) + " "@ + item + " "@)
            } else {
                match condition_spec(t.alt_test) {
                    Err(k) => Err(k),
                    Ok(c) => Ok(c + " "@),
                }
            }
        },
    }
}

/// The targets' texts, one after the other.
pub open spec fn targets_spec(b: Bundle, ts: Seq<QuestTarget>) -> Result<Seq<char>, ErrorKind>
    decreases ts.len(),
{
    if ts.len() == 0 {
        Ok(Seq::empty())
    } else {
        match targets_spec(b, ts.drop_last()) {
            Err(k) => Err(k),
            Ok(prefix) => match target_spec(b, ts.last()) {
                Err(k) => Err(k),
                Ok(x) => Ok(prefix + x),
            },
        }
    }
}

/// Quests: named by their appended description when set, with the reward
/// item's name, the condition text and the targets' texts.
pub struct Quests;

impl Projection for Quests {
    type Item = Quest;

    type Row = QuestData;

    open spec fn project_spec(b: Bundle, lang: LanguageView, item: Quest) -> Result<QuestRow, ErrorKind> {
        match optional_text_spec(lang, item.inv_item_append_desc) {
            Err(k) => Err(k),
            Ok(desc) => match deref_optional_spec::<SavedItem>(b, item.reward_item.object) {
                Err(k) => Err(k),
                Ok(reward) => match condition_spec(item.player_data_test) {
                    Err(k) => Err(k),
                    Ok(cond) => match targets_spec(b, item.targets@) {
                        Err(k) => Err(k),
                        Ok(reqs) => Ok(
                            QuestRow {
                                name: match desc {
                                    Some(t) => t,
                                    None => item.name@,
                                },
                                reward_item: match reward {
                                    Some(r) => r.name@,
                                    None => Seq::empty(),
                                },
                                reward_count: item.reward_count,
                                reward_count_act3: item.reward_count_act3,
                                requirements: reqs,
                                condition: cond,
                            },
                        ),
                    },
                },
            },
        }
    }

    fn project(res: &Resolver, item: &Quest) -> (r: Result<QuestData, ErrorKind>) {
        let desc = optional_localized(res, &item.inv_item_append_desc)?;
        let reward = res.deref_optional(&item.reward_item)?;
        let condition = condition(&item.player_data_test)?;
        let requirements = targets_text(res, &item.targets)?;
        let name = match desc {
            Some(t) => t,
            None => item.name.clone(),
        };
        let reward_item = match reward {
            Some(r) => r.name.clone(),
            None => String::new(),
        };
        Ok(
            QuestData {
                name,
                reward_item,
                reward_count: item.reward_count,
                reward_count_act3: item.reward_count_act3,
                requirements,
                condition,
            },
        )
    }
}

fn target_text(res: &Resolver, t: &QuestTarget, out: &mut String) -> (r: Result<(), ErrorKind>)
    ensures
        r is Ok ==> (target_spec(*res.bundle, *t) matches Ok(x) && final(out)@ == old(out)@ + x),
        r matches Err(k) ==> target_spec(*res.bundle, *t) == Err::<Seq<char>, ErrorKind>(k),
{
    let counter = res.deref_name_optional(&t.counter)?;
    if t.alt_test.is_vacuous() {
        push_int(out, t.count);
        push_str(out, " ");
        match counter {
            Some(n) => push_str(out, n.as_str()),
            None => {},
        }
        push_str(out, " ");
        assert(counter is None ==> out@ =~= old(out)@ + (int_text(t.count as int) + " "@
            + Seq::empty() + " "@));
        assert(counter matches Some(n) ==> out@ =~= old(out)@ + (int_text(t.count as int) + " "@
            + n@ + " "@));
    } else {
        let c = condition(&t.alt_test)?;
        push_str(out, c.as_str());
        push_str(out, " ");
        assert(out@ =~= old(out)@ + (c@ + " "@));
    }
    Ok(())
}

fn targets_text(res: &Resolver, ts: &Vec<QuestTarget>) -> (r: Result<String, ErrorKind>)
    ensures
        r matches Ok(t) ==> targets_spec(*res.bundle, ts@) == Ok::<Seq<char>, ErrorKind>(t@),
        r matches Err(k) ==> targets_spec(*res.bundle, ts@) == Err::<Seq<char>, ErrorKind>(k),
{
    let mut out = String::new();
    let mut i: usize = 0;
    while i < ts.len()
        invariant
            i <= ts@.len(),
            targets_spec(*res.bundle, ts@.subrange(0, i as int)) == Ok::<Seq<char>, ErrorKind>(out@),
        decreases ts@.len() - i,
    {
        assert(ts@.subrange(0, i + 1).drop_last() =~= ts@.subrange(0, i as int));
        match target_text(res, &ts[i], &mut out) {
            Ok(()) => {},
            Err(k) => {
                proof {
                    lemma_targets_failure(*res.bundle, ts@, i as int);
                }
                return Err(k);
            },
        }
        i = i + 1;
    }
    assert(ts@.subrange(0, i as int) =~= ts@);
    Ok(out)
}

proof fn lemma_targets_failure(b: Bundle, ts: Seq<QuestTarget>, i: int)
    requires
        0 <= i < ts.len(),
        targets_spec(b, ts.subrange(0, i + 1)) is Err,
    ensures
        targets_spec(b, ts) == targets_spec(b, ts.subrange(0, i + 1)),
    decreases ts.len() - i,
{
    if i + 1 < ts.len() {
        assert(ts.drop_last().subrange(0, i + 1) =~= ts.subrange(0, i + 1));
        lemma_targets_failure(b, ts.drop_last(), i);
    } else {
        assert(ts.subrange(0, i + 1) =~= ts);
    }
}

// ---- shop items ----

/// A row of the shop-items dataset.
#[derive(Clone, Debug)]
pub struct ShopItemData {
    pub name: String,
    pub internal_name: String,
    pub cost: i32,
    pub item: Option<String>,
    pub conditions: Option<String>,
    pub quest: Option<String>,
}

pub struct ShopItemRow {
    pub name: Seq<char>,
    pub internal_name: Seq<char>,
    pub cost: i32,
    pub item: Option<Seq<char>>,
    pub conditions: Option<Seq<char>>,
    pub quest: Option<Seq<char>>,
}

impl View for ShopItemData {
    type V = ShopItemRow;

    open spec fn view(&self) -> ShopItemRow {
        ShopItemRow {
            name: self.name@,
            internal_name: self.internal_name@,
            cost: self.cost,
            item: opt_view(self.item),
            conditions: opt_view(self.conditions),
            quest: opt_view(self.quest),
        }
    }
}

/// `" <word>"` or `" not <word>"` when `check` is set, else nothing.
pub open spec fn flag_spec(check: u8, is: u8, word: Seq<char>) -> Seq<char> {
    if check == 0 {
        Seq::empty()
    } else if is != 0 {
        " "@ + word
    } else {
        " not "@ + word
    }
}

/// `'<quest>'` followed by each state the test checks.
pub open spec fn quest_test_spec(b: Bundle, q: QuestTest) -> Result<Seq<char>, ErrorKind> {
    match deref_spec::<Quest>(b, q.quest.object) {
        Err(k) => Err(k),
        Ok(quest) => Ok(
            "'"@ + quest.name@ + "'"@ + flag_spec(q.check_available, q.is_available, "available"@)
                + flag_spec(q.check_accepted, q.is_accepted, "accepted"@) + (if q.check_completed_amount
                != 0 {
                " completedamount "@ + int_text(q.completed_amount as int)
            } else {
                Seq::empty()
            }) + flag_spec(q.check_completable, q.is_completable, "completable"@) + flag_spec(
                q.check_completed,
                q.is_completed,
                "completed"@,
            ) + flag_spec(q.check_was_ever_completed, q.was_ever_completed, "completed"@),
        ),
    }
}

/// The quest tests' texts, one after the other.
pub open spec fn quest_tests_spec(b: Bundle, qs: Seq<QuestTest>) -> Result<Seq<char>, ErrorKind>
    decreases qs.len(),
{
    if qs.len() == 0 {
        Ok(Seq::empty())
    } else {
        match quest_tests_spec(b, qs.drop_last()) {
            Err(k) => Err(k),
            Ok(prefix) => match quest_test_spec(b, qs.last()) {
                Err(k) => Err(k),
                Ok(x) => Ok(prefix + x),
            },
        }
    }
}

/// Shop items: displayed name, internal name, the cost (from the cost
/// reference when set), the required item's name, the extra condition when
/// there is one, and the quest requirements when there are any.
pub struct ShopItems;

impl Projection for ShopItems {
    type Item = ShopItem;

    type Row = ShopItemData;

    open spec fn project_spec(b: Bundle, lang: LanguageView, item: ShopItem) -> Result<ShopItemRow, ErrorKind> {
        match deref_optional_spec::<IntReference>(b, item.cost_reference.object) {
            Err(k) => Err(k),
            Ok(cost_ref) => match deref_name_optional_spec(b, item.required_item.object) {
                Err(k) => Err(k),
                Ok(required) => match (if item.extra_appear_conditions.test_groups@.len() == 0 {
                    Ok(None)
                } else {
                    match condition_spec(item.extra_appear_conditions) {
                        Ok(c) => Ok(Some(c)),
                        Err(k) => Err(k),
                    }
                }) {
                    Err(k) => Err(k),
                    Ok(conditions) => match (if item.quests_appear_conditions@.len() == 0 {
                        Ok(None)
                    } else {
                        match quest_tests_spec(b, item.quests_appear_conditions@) {
                            Ok(c) => Ok(Some(c)),
                            Err(k) => Err(k),
                        }
                    }) {
                        Err(k) => Err(k),
                        Ok(quest) => match text_spec(lang, item.display_name) {
                            Err(k) => Err(k),
                            Ok(name) => Ok(
                                ShopItemRow {
                                    name,
                                    internal_name: item.name@,
                                    cost: match cost_ref {
                                        Some(c) => c.value,
                                        None => item.cost,
                                    },
                                    item: required,
                                    conditions,
                                    quest,
                                },
                            ),
                        },
                    },
                },
            },
        }
    }

    fn project(res: &Resolver, item: &ShopItem) -> (r: Result<ShopItemData, ErrorKind>) {
        let cost_ref = res.deref_optional(&item.cost_reference)?;
        let required = res.deref_name_optional(&item.required_item)?;
        let conditions = if item.extra_appear_conditions.is_vacuous() {
            None
        } else {
            Some(condition(&item.extra_appear_conditions)?)
        };
        let quest = if item.quests_appear_conditions.len() == 0 {
            None
        } else {
            Some(quest_tests_text(res, &item.quests_appear_conditions)?)
        };
        let name = localized(res, &item.display_name)?;
        let cost = match cost_ref {
            Some(c) => c.value,
            None => item.cost,
        };
        let required_item = match required {
            Some(n) => Some(n.clone()),
            None => None,
        };
        Ok(
            ShopItemData {
                name,
                internal_name: item.name.clone(),
                cost,
                item: required_item,
                conditions,
                quest,
            },
        )
    }
}

fn push_flag(out: &mut String, check: u8, is: u8, word: &str)
    ensures
        final(out)@ == old(out)@ + flag_spec(check, is, word@),
{
    if check != 0 {
        if is != 0 {
            push_str(out, " ");
        } else {
            push_str(out, " not ");
        }
        push_str(out, word);
    }
    assert(out@ =~= old(out)@ + flag_spec(check, is, word@));
}

fn quest_test_text(res: &Resolver, q: &QuestTest, out: &mut String) -> (r: Result<(), ErrorKind>)
    ensures
        r is Ok ==> (quest_test_spec(*res.bundle, *q) matches Ok(x) && final(out)@ == old(out)@ + x),
        r matches Err(k) ==> quest_test_spec(*res.bundle, *q) == Err::<Seq<char>, ErrorKind>(k),
{
    let quest = res.deref(&q.quest)?;
    let ghost start = out@;
    push_str(out, "'");
    push_str(out, quest.name.as_str());
    push_str(out, "'");
    push_flag(out, q.check_available, q.is_available, "available");
    push_flag(out, q.check_accepted, q.is_accepted, "accepted");
    let ghost mid = out@;
    if q.check_completed_amount != 0 {
        push_str(out, " completedamount ");
        push_int(out, q.completed_amount);
    }
    let ghost amount = if q.check_completed_amount != 0 {
        " completedamount "@ + int_text(q.completed_amount as int)
    } else {
        Seq::empty()
    };
    assert(out@ =~= mid + amount);
    push_flag(out, q.check_completable, q.is_completable, "completable");
    push_flag(out, q.check_completed, q.is_completed, "completed");
    push_flag(out, q.check_was_ever_completed, q.was_ever_completed, "completed");
    assert(out@ =~= start + ("'"@ + quest.name@ + "'"@ + flag_spec(
        q.check_available,
        q.is_available,
        "available"@,
    ) + flag_spec(q.check_accepted, q.is_accepted, "accepted"@) + amount + flag_spec(
        q.check_completable,
        q.is_completable,
        "completable"@,
    ) + flag_spec(q.check_completed, q.is_completed, "completed"@) + flag_spec(
        q.check_was_ever_completed,
        q.was_ever_completed,
        "completed"@,
    )));
    Ok(())
}

fn quest_tests_text(res: &Resolver, qs: &Vec<QuestTest>) -> (r: Result<String, ErrorKind>)
    ensures
        r matches Ok(t) ==> quest_tests_spec(*res.bundle, qs@) == Ok::<Seq<char>, ErrorKind>(t@),
        r matches Err(k) ==> quest_tests_spec(*res.bundle, qs@) == Err::<Seq<char>, ErrorKind>(k),
{
    let mut out = String::new();
    let mut i: usize = 0;
    while i < qs.len()
        invariant
            i <= qs@.len(),
            quest_tests_spec(*res.bundle, qs@.subrange(0, i as int)) == Ok::<Seq<char>, ErrorKind>(
                out@,
            ),
        decreases qs@.len() - i,
    {
        assert(qs@.subrange(0, i + 1).drop_last() =~= qs@.subrange(0, i as int));
        match quest_test_text(res, &qs[i], &mut out) {
            Ok(()) => {},
            Err(k) => {
                proof {
                    lemma_quest_tests_failure(*res.bundle, qs@, i as int);
                }
                return Err(k);
            },
        }
        i = i + 1;
    }
    assert(qs@.subrange(0, i as int) =~= qs@);
    Ok(out)
}

proof fn lemma_quest_tests_failure(b: Bundle, qs: Seq<QuestTest>, i: int)
    requires
        0 <= i < qs.len(),
        quest_tests_spec(b, qs.subrange(0, i + 1)) is Err,
    ensures
        quest_tests_spec(b, qs) == quest_tests_spec(b, qs.subrange(0, i + 1)),
    decreases qs.len() - i,
{
    if i + 1 < qs.len() {
        assert(qs.drop_last().subrange(0, i + 1) =~= qs.subrange(0, i + 1));
        lemma_quest_tests_failure(b, qs.drop_last(), i);
    } else {
        assert(qs.subrange(0, i + 1) =~= qs);
    }
}

} // verus!
