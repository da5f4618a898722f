//! Enumerations stored in records as their `i32` representation.
use vstd::prelude::*;
verus! {
/// Kind of an enemy-journal record.
#[derive(Clone, Copy, Debug, PartialEq, Eq, Structural)]
pub enum RecordTypes {
    Enemy,
    Other,
}

impl RecordTypes {
    /// The stored representation of the variant.
    pub open spec fn spec_repr(self) -> i32 {
        match self {
            RecordTypes::Enemy => 0i32,
            RecordTypes::Other => 1i32,
        }
    }

    /// The variant stored as `v`, if any.
    pub open spec fn spec_from_repr(v: i32) -> Option<Self> {
        if v == 0i32 {
            Some(RecordTypes::Enemy)
        } else if v == 1i32 {
            Some(RecordTypes::Other)
        } else {
            None
        }
    }

    pub fn repr(&self) -> (r: i32)
        ensures
            r == self.spec_repr(),
    {
        match self {
            RecordTypes::Enemy => 0i32,
            RecordTypes::Other => 1i32,
        }
    }

    /// Decodes a stored representation; `None` for a value no variant has.
    pub fn from_repr(v: i32) -> (r: Option<Self>)
        ensures
            r == Self::spec_from_repr(v),
            r matches Some(e) ==> e.spec_repr() == v,
    {
        if v == 0i32 {
            Some(RecordTypes::Enemy)
        } else if v == 1i32 {
            Some(RecordTypes::Other)
        } else {
            None
        }
    }
}

/// Whether a journal record counts towards completion.
#[derive(Clone, Copy, Debug, PartialEq, Eq, Structural)]
pub enum RequiredTypes {
    NotRequired,
    Required,
    RequiredSteelSoul,
}

impl RequiredTypes {
    /// The stored representation of the variant.
    pub open spec fn spec_repr(self) -> i32 {
        match self {
            RequiredTypes::NotRequired => 0i32,
            RequiredTypes::Required => 1i32,
            RequiredTypes::RequiredSteelSoul => 2i32,
        }
    }

    /// The variant stored as `v`, if any.
    pub open spec fn spec_from_repr(v: i32) -> Option<Self> {
        if v == 0i32 {
            Some(RequiredTypes::NotRequired)
        } else if v == 1i32 {
            Some(RequiredTypes::Required)
        } else if v == 2i32 {
            Some(RequiredTypes::RequiredSteelSoul)
        } else {
            None
        }
    }

    pub fn repr(&self) -> (r: i32)
        ensures
            r == self.spec_repr(),
    {
        match self {
            RequiredTypes::NotRequired => 0i32,
            RequiredTypes::Required => 1i32,
            RequiredTypes::RequiredSteelSoul => 2i32,
        }
    }

    /// Decodes a stored representation; `None` for a value no variant has.
    pub fn from_repr(v: i32) -> (r: Option<Self>)
        ensures
            r == Self::spec_from_repr(v),
            r matches Some(e) ==> e.spec_repr() == v,
    {
        if v == 0i32 {
            Some(RequiredTypes::NotRequired)
        } else if v == 1i32 {
            Some(RequiredTypes::Required)
        } else if v == 2i32 {
            Some(RequiredTypes::RequiredSteelSoul)
        } else {
            None
        }
    }
}

/// Elemental effect attached to a damage tag.
#[derive(Clone, Copy, Debug, PartialEq, Eq, Structural)]
pub enum NailElement {
    NoElement,
    Fire,
    Poison,
}

impl NailElement {
    /// The stored representation of the variant.
    pub open spec fn spec_repr(self) -> i32 {
        match self {
            NailElement::NoElement => 0i32,
            NailElement::Fire => 1i32,
            NailElement::Poison => 2i32,
        }
    }

    /// The variant stored as `v`, if any.
    pub open spec fn spec_from_repr(v: i32) -> Option<Self> {
        if v == 0i32 {
            Some(NailElement::NoElement)
        } else if v == 1i32 {
            Some(NailElement::Fire)
        } else if v == 2i32 {
            Some(NailElement::Poison)
        } else {
            None
        }
    }

    pub fn repr(&self) -> (r: i32)
        ensures
            r == self.spec_repr(),
    {
        match self {
            NailElement::NoElement => 0i32,
            NailElement::Fire => 1i32,
            NailElement::Poison => 2i32,
        }
    }

    /// Decodes a stored representation; `None` for a value no variant has.
    pub fn from_repr(v: i32) -> (r: Option<Self>)
        ensures
            r == Self::spec_from_repr(v),
            r matches Some(e) ==> e.spec_repr() == v,
    {
        if v == 0i32 {
            Some(NailElement::NoElement)
        } else if v == 1i32 {
            Some(NailElement::Fire)
        } else if v == 2i32 {
            Some(NailElement::Poison)
        } else {
            None
        }
    }
}

/// Special damage kind of a damage tag.
#[derive(Clone, Copy, Debug, PartialEq, Eq, Structural)]
pub enum SpecialDamageType {
    Normal,
    Frost,
    Lightning,
}

impl SpecialDamageType {
    /// The stored representation of the variant.
    pub open spec fn spec_repr(self) -> i32 {
        match self {
            SpecialDamageType::Normal => 0i32,
            SpecialDamageType::Frost => 1i32,
            SpecialDamageType::Lightning => 2i32,
        }
    }

    /// The variant stored as `v`, if any.
    pub open spec fn spec_from_repr(v: i32) -> Option<Self> {
        if v == 0i32 {
            Some(SpecialDamageType::Normal)
        } else if v == 1i32 {
            Some(SpecialDamageType::Frost)
        } else if v == 2i32 {
            Some(SpecialDamageType::Lightning)
        } else {
            None
        }
    }

    pub fn repr(&self) -> (r: i32)
        ensures
            r == self.spec_repr(),
    {
        match self {
            SpecialDamageType::Normal => 0i32,
            SpecialDamageType::Frost => 1i32,
            SpecialDamageType::Lightning => 2i32,
        }
    }

    /// Decodes a stored representation; `None` for a value no variant has.
    pub fn from_repr(v: i32) -> (r: Option<Self>)
        ensures
            r == Self::spec_from_repr(v),
            r matches Some(e) ==> e.spec_repr() == v,
    {
        if v == 0i32 {
            Some(SpecialDamageType::Normal)
        } else if v == 1i32 {
            Some(SpecialDamageType::Frost)
        } else if v == 2i32 {
            Some(SpecialDamageType::Lightning)
        } else {
            None
        }
    }
}

/// Kind of value a condition test compares against.
#[derive(Clone, Copy, Debug, PartialEq, Eq, Structural)]
pub enum TestType {
    Bool,
    Int,
    Float,
    Enum,
    String,
}

impl TestType {
    /// The stored representation of the variant.
    pub open spec fn spec_repr(self) -> i32 {
        match self {
            TestType::Bool => 0i32,
            TestType::Int => 1i32,
            TestType::Float => 2i32,
            TestType::Enum => 3i32,
            TestType::String => 4i32,
        }
    }

    /// The variant stored as `v`, if any.
    pub open spec fn spec_from_repr(v: i32) -> Option<Self> {
        if v == 0i32 {
            Some(TestType::Bool)
        } else if v == 1i32 {
            Some(TestType::Int)
        } else if v == 2i32 {
            Some(TestType::Float)
        } else if v == 3i32 {
            Some(TestType::Enum)
        } else if v == 4i32 {
            Some(TestType::String)
        } else {
            None
        }
    }

    pub fn repr(&self) -> (r: i32)
        ensures
            r == self.spec_repr(),
    {
        match self {
            TestType::Bool => 0i32,
            TestType::Int => 1i32,
            TestType::Float => 2i32,
            TestType::Enum => 3i32,
            TestType::String => 4i32,
        }
    }

    /// Decodes a stored representation; `None` for a value no variant has.
    pub fn from_repr(v: i32) -> (r: Option<Self>)
        ensures
            r == Self::spec_from_repr(v),
            r matches Some(e) ==> e.spec_repr() == v,
    {
        if v == 0i32 {
            Some(TestType::Bool)
        } else if v == 1i32 {
            Some(TestType::Int)
        } else if v == 2i32 {
            Some(TestType::Float)
        } else if v == 3i32 {
            Some(TestType::Enum)
        } else if v == 4i32 {
            Some(TestType::String)
        } else {
            None
        }
    }
}

/// Comparator of a condition test.
#[derive(Clone, Copy, Debug, PartialEq, Eq, Structural)]
pub enum TestNumType {
    Equal,
    NotEqual,
    LessThan,
    MoreThan,
}

impl TestNumType {
    /// The stored representation of the variant.
    pub open spec fn spec_repr(self) -> i32 {
        match self {
            TestNumType::Equal => 0i32,
            TestNumType::NotEqual => 1i32,
            TestNumType::LessThan => 2i32,
            TestNumType::MoreThan => 3i32,
        }
    }

    /// The variant stored as `v`, if any.
    pub open spec fn spec_from_repr(v: i32) -> Option<Self> {
        if v == 0i32 {
            Some(TestNumType::Equal)
        } else if v == 1i32 {
            Some(TestNumType::NotEqual)
        } else if v == 2i32 {
            Some(TestNumType::LessThan)
        } else if v == 3i32 {
            Some(TestNumType::MoreThan)
        } else {
            None
        }
    }

    pub fn repr(&self) -> (r: i32)
        ensures
            r == self.spec_repr(),
    {
        match self {
            TestNumType::Equal => 0i32,
            TestNumType::NotEqual => 1i32,
            TestNumType::LessThan => 2i32,
            TestNumType::MoreThan => 3i32,
        }
    }

    /// Decodes a stored representation; `None` for a value no variant has.
    pub fn from_repr(v: i32) -> (r: Option<Self>)
        ensures
            r == Self::spec_from_repr(v),
            r matches Some(e) ==> e.spec_repr() == v,
    {
        if v == 0i32 {
            Some(TestNumType::Equal)
        } else if v == 1i32 {
            Some(TestNumType::NotEqual)
        } else if v == 2i32 {
            Some(TestNumType::LessThan)
        } else if v == 3i32 {
            Some(TestNumType::MoreThan)
        } else {
            None
        }
    }
}

/// Slot colour of a tool.
#[derive(Clone, Copy, Debug, PartialEq, Eq, Structural)]
pub enum ToolItemType {
    Red,
    Blue,
    Yellow,
    Skill,
}

impl ToolItemType {
    /// The stored representation of the variant.
    pub open spec fn spec_repr(self) -> i32 {
        match self {
            ToolItemType::Red => 0i32,
            ToolItemType::Blue => 1i32,
            ToolItemType::Yellow => 2i32,
            ToolItemType::Skill => 3i32,
        }
    }

    /// The variant stored as `v`, if any.
    pub open spec fn spec_from_repr(v: i32) -> Option<Self> {
        if v == 0i32 {
            Some(ToolItemType::Red)
        } else if v == 1i32 {
            Some(ToolItemType::Blue)
        } else if v == 2i32 {
            Some(ToolItemType::Yellow)
        } else if v == 3i32 {
            Some(ToolItemType::Skill)
        } else {
            None
        }
    }

    pub fn repr(&self) -> (r: i32)
        ensures
            r == self.spec_repr(),
    {
        match self {
            ToolItemType::Red => 0i32,
            ToolItemType::Blue => 1i32,
            ToolItemType::Yellow => 2i32,
            ToolItemType::Skill => 3i32,
        }
    }

    /// Decodes a stored representation; `None` for a value no variant has.
    pub fn from_repr(v: i32) -> (r: Option<Self>)
        ensures
            r == Self::spec_from_repr(v),
            r matches Some(e) ==> e.spec_repr() == v,
    {
        if v == 0i32 {
            Some(ToolItemType::Red)
        } else if v == 1i32 {
            Some(ToolItemType::Blue)
        } else if v == 2i32 {
            Some(ToolItemType::Yellow)
        } else if v == 3i32 {
            Some(ToolItemType::Skill)
        } else {
            None
        }
    }
}

/// How a tool's replenish cost is computed.
#[derive(Clone, Copy, Debug, PartialEq, Eq, Structural)]
pub enum ReplenishUsage {
    Percentage,
    OneForOne,
    Custom,
}

impl ReplenishUsage {
    /// The stored representation of the variant.
    pub open spec fn spec_repr(self) -> i32 {
        match self {
            ReplenishUsage::Percentage => 0i32,
            ReplenishUsage::OneForOne => 1i32,
            ReplenishUsage::Custom => 2i32,
        }
    }

    /// The variant stored as `v`, if any.
    pub open spec fn spec_from_repr(v: i32) -> Option<Self> {
        if v == 0i32 {
            Some(ReplenishUsage::Percentage)
        } else if v == 1i32 {
            Some(ReplenishUsage::OneForOne)
        } else if v == 2i32 {
            Some(ReplenishUsage::Custom)
        } else {
            None
        }
    }

    pub fn repr(&self) -> (r: i32)
        ensures
            r == self.spec_repr(),
    {
        match self {
            ReplenishUsage::Percentage => 0i32,
            ReplenishUsage::OneForOne => 1i32,
            ReplenishUsage::Custom => 2i32,
        }
    }

    /// Decodes a stored representation; `None` for a value no variant has.
    pub fn from_repr(v: i32) -> (r: Option<Self>)
        ensures
            r == Self::spec_from_repr(v),
            r matches Some(e) ==> e.spec_repr() == v,
    {
        if v == 0i32 {
            Some(ReplenishUsage::Percentage)
        } else if v == 1i32 {
            Some(ReplenishUsage::OneForOne)
        } else if v == 2i32 {
            Some(ReplenishUsage::Custom)
        } else {
            None
        }
    }
}

/// Damage behaviour flag of a tool.
#[derive(Clone, Copy, Debug, PartialEq, Eq, Structural)]
pub enum ToolDamageFlags {
    NoFlags,
    Shredding,
    Spearing,
    Searing,
}

impl ToolDamageFlags {
    /// The stored representation of the variant.
    pub open spec fn spec_repr(self) -> i32 {
        match self {
            ToolDamageFlags::NoFlags => 0i32,
            ToolDamageFlags::Shredding => 1i32,
            ToolDamageFlags::Spearing => 2i32,
            ToolDamageFlags::Searing => 4i32,
        }
    }

    /// The variant stored as `v`, if any.
    pub open spec fn spec_from_repr(v: i32) -> Option<Self> {
        if v == 0i32 {
            Some(ToolDamageFlags::NoFlags)
        } else if v == 1i32 {
            Some(ToolDamageFlags::Shredding)
        } else if v == 2i32 {
            Some(ToolDamageFlags::Spearing)
        } else if v == 4i32 {
            Some(ToolDamageFlags::Searing)
        } else {
            None
        }
    }

    pub fn repr(&self) -> (r: i32)
        ensures
            r == self.spec_repr(),
    {
        match self {
            ToolDamageFlags::NoFlags => 0i32,
            ToolDamageFlags::Shredding => 1i32,
            ToolDamageFlags::Spearing => 2i32,
            ToolDamageFlags::Searing => 4i32,
        }
    }

    /// Decodes a stored representation; `None` for a value no variant has.
    pub fn from_repr(v: i32) -> (r: Option<Self>)
        ensures
            r == Self::spec_from_repr(v),
            r matches Some(e) ==> e.spec_repr() == v,
    {
        if v == 0i32 {
            Some(ToolDamageFlags::NoFlags)
        } else if v == 1i32 {
            Some(ToolDamageFlags::Shredding)
        } else if v == 2i32 {
            Some(ToolDamageFlags::Spearing)
        } else if v == 4i32 {
            Some(ToolDamageFlags::Searing)
        } else {
            None
        }
    }
}

/// Currency a tool is replenished with.
#[derive(Clone, Copy, Debug, PartialEq, Eq, Structural)]
pub enum ReplenishResources {
    NoResource,
    Money,
    Shard,
}

impl ReplenishResources {
    /// The stored representation of the variant.
    pub open spec fn spec_repr(self) -> i32 {
        match self {
            ReplenishResources::NoResource => -1i32,
            ReplenishResources::Money => 0i32,
            ReplenishResources::Shard => 1i32,
        }
    }

    /// The variant stored as `v`, if any.
    pub open spec fn spec_from_repr(v: i32) -> Option<Self> {
        if v == -1i32 {
            Some(ReplenishResources::NoResource)
        } else if v == 0i32 {
            Some(ReplenishResources::Money)
        } else if v == 1i32 {
            Some(ReplenishResources::Shard)
        } else {
            None
        }
    }

    pub fn repr(&self) -> (r: i32)
        ensures
            r == self.spec_repr(),
    {
        match self {
            ReplenishResources::NoResource => -1i32,
            ReplenishResources::Money => 0i32,
            ReplenishResources::Shard => 1i32,
        }
    }

    /// Decodes a stored representation; `None` for a value no variant has.
    pub fn from_repr(v: i32) -> (r: Option<Self>)
        ensures
            r == Self::spec_from_repr(v),
            r matches Some(e) ==> e.spec_repr() == v,
    {
        if v == -1i32 {
            Some(ReplenishResources::NoResource)
        } else if v == 0i32 {
            Some(ReplenishResources::Money)
        } else if v == 1i32 {
            Some(ReplenishResources::Shard)
        } else {
            None
        }
    }
}

/// How a shop item is obtained.
#[derive(Clone, Copy, Debug, PartialEq, Eq, Structural)]
pub enum PurchaseType {
    Purchase,
    Craft,
    Repair,
}

impl PurchaseType {
    /// The stored representation of the variant.
    pub open spec fn spec_repr(self) -> i32 {
        match self {
            PurchaseType::Purchase => 0i32,
            PurchaseType::Craft => 1i32,
            PurchaseType::Repair => 2i32,
        }
    }

    /// The variant stored as `v`, if any.
    pub open spec fn spec_from_repr(v: i32) -> Option<Self> {
        if v == 0i32 {
            Some(PurchaseType::Purchase)
        } else if v == 1i32 {
            Some(PurchaseType::Craft)
        } else if v == 2i32 {
            Some(PurchaseType::Repair)
        } else {
            None
        }
    }

    pub fn repr(&self) -> (r: i32)
        ensures
            r == self.spec_repr(),
    {
        match self {
            PurchaseType::Purchase => 0i32,
            PurchaseType::Craft => 1i32,
            PurchaseType::Repair => 2i32,
        }
    }

    /// Decodes a stored representation; `None` for a value no variant has.
    pub fn from_repr(v: i32) -> (r: Option<Self>)
        ensures
            r == Self::spec_from_repr(v),
            r matches Some(e) ==> e.spec_repr() == v,
    {
        if v == 0i32 {
            Some(PurchaseType::Purchase)
        } else if v == 1i32 {
            Some(PurchaseType::Craft)
        } else if v == 2i32 {
            Some(PurchaseType::Repair)
        } else {
            None
        }
    }
}

} // verus!
