//! Equipment presets: the preset a knowledge grants, and switching the
//! active preset.
use vstd::prelude::*;
use crate::items::ItemStack;

verus! {

/// The equipment slots of a preset.
#[derive(Clone, Copy, Debug, PartialEq, Eq, Structural)]
pub enum EquipmentSlotType {
    MainHand,
    OffHand,
    HeadArtifact,
    TorsoArtifact,
    HandArtifact,
    FeetArtifact,
    HeadClothing,
    TorsoClothing,
    HandClothing,
    BeltClothing,
    LegClothing,
    FeetClothing,
}

#[derive(Clone, Copy, Debug, PartialEq, Eq, Structural)]
pub struct EquipmentSlot {
    pub item: Option<ItemStack>,
    pub primary: EquipmentSlotType,
}

#[derive(Clone, Debug)]
pub struct EquipmentPresetState {
    pub entity_id: u64,
    pub player_entity_id: u64,
    pub index: i32,
    pub active: bool,
    pub equipment_slots: Vec<EquipmentSlot>,
}

/// The slot kinds of a new preset, in order.
pub open spec fn preset_slot_types() -> Seq<EquipmentSlotType> {
    seq![
        EquipmentSlotType::MainHand,
        EquipmentSlotType::OffHand,
        EquipmentSlotType::HeadArtifact,
        EquipmentSlotType::TorsoArtifact,
        EquipmentSlotType::HandArtifact,
        EquipmentSlotType::FeetArtifact,
        EquipmentSlotType::HeadClothing,
        EquipmentSlotType::TorsoClothing,
        EquipmentSlotType::HandClothing,
        EquipmentSlotType::BeltClothing,
        EquipmentSlotType::LegClothing,
        EquipmentSlotType::FeetClothing,
    ]
}

/// The empty slots of a new preset.
pub open spec fn empty_preset_slots() -> Seq<EquipmentSlot> {
    preset_slot_types().map_values(|t: EquipmentSlotType| EquipmentSlot { item: None, primary: t })
}

fn empty_slots() -> (r: Vec<EquipmentSlot>)
    ensures
        r@ == empty_preset_slots(),
{
    let mut v: Vec<EquipmentSlot> = Vec::new();
    v.push(EquipmentSlot { item: None, primary: EquipmentSlotType::MainHand });
    v.push(EquipmentSlot { item: None, primary: EquipmentSlotType::OffHand });
    v.push(EquipmentSlot { item: None, primary: EquipmentSlotType::HeadArtifact });
    v.push(EquipmentSlot { item: None, primary: EquipmentSlotType::TorsoArtifact });
    v.push(EquipmentSlot { item: None, primary: EquipmentSlotType::HandArtifact });
    v.push(EquipmentSlot { item: None, primary: EquipmentSlotType::FeetArtifact });
    v.push(EquipmentSlot { item: None, primary: EquipmentSlotType::HeadClothing });
    v.push(EquipmentSlot { item: None, primary: EquipmentSlotType::TorsoClothing });
    v.push(EquipmentSlot { item: None, primary: EquipmentSlotType::HandClothing });
    v.push(EquipmentSlot { item: None, primary: EquipmentSlotType::BeltClothing });
    v.push(EquipmentSlot { item: None, primary: EquipmentSlotType::LegClothing });
    v.push(EquipmentSlot { item: None, primary: EquipmentSlotType::FeetClothing });
    assert(v@ =~= empty_preset_slots());
    v
}

impl EquipmentPresetState {
    /// The preset a player gains with a knowledge that grants one
    /// (`grants_preset`): inactive, empty, numbered after the player's
    /// `existing_presets`. `entity_id` is the new preset's entity.
    pub fn on_knowledge_acquired(
        grants_preset: bool,
        entity_id: u64,
        player_entity_id: u64,
        existing_presets: usize,
    ) -> (r: Option<EquipmentPresetState>)
        requires
            existing_presets < i32::MAX,
        ensures
            !grants_preset ==> r is None,
            grants_preset ==> (r matches Some(p) && p.entity_id == entity_id && p.player_entity_id
                == player_entity_id && p.index == existing_presets + 1 && !p.active
                && p.equipment_slots@ == empty_preset_slots()),
    {
        if !grants_preset {
            return None;
        }
        Some(
            EquipmentPresetState {
                entity_id,
                player_entity_id,
                index: existing_presets as i32 + 1,
                active: false,
                equipment_slots: empty_slots(),
            },
        )
    }
}

/// The preset with its active flag set.
pub open spec fn with_active(p: EquipmentPresetState, active: bool) -> EquipmentPresetState {
    EquipmentPresetState { active, ..p }
}

/// Every preset active exactly when its number is `index`.
pub open spec fn activated(before: Seq<EquipmentPresetState>, after: Seq<EquipmentPresetState>, index: i32) -> bool {
    &&& after.len() == before.len()
    &&& forall|i: int|
        0 <= i < before.len() ==> #[trigger] after[i] == with_active(before[i], before[i].index == index)
}

/// Some preset changes its active flag.
pub open spec fn activation_changes(presets: Seq<EquipmentPresetState>, index: i32) -> bool {
    exists|i: int| 0 <= i < presets.len() && #[trigger] presets[i].active != (presets[i].index == index)
}

/// Makes preset `index` the player's active one (and no other). The result
/// says whether any preset changed, which calls for the player's stats to be
/// computed again.
pub fn equipment_preset_activate(presets: &mut Vec<EquipmentPresetState>, index: i32) -> (recalculate: bool)
    ensures
        activated(old(presets)@, final(presets)@, index),
        recalculate == activation_changes(old(presets)@, index),
{
    let n = presets.len();
    let mut changed = false;
    let mut i: usize = 0;
    while i < n
        invariant
            n == presets@.len(),
            n == old(presets)@.len(),
            i <= n,
            forall|j: int|
                0 <= j < i ==> #[trigger] presets@[j] == with_active(old(presets)@[j], old(presets)@[j].index == index),
            forall|j: int| i <= j < n ==> #[trigger] presets@[j] == old(presets)@[j],
            changed == exists|j: int| 0 <= j < i && #[trigger] old(presets)@[j].active != (old(presets)@[j].index == index),
        decreases n - i,
    {
        let activate = index == presets[i].index;
        if presets[i].active != activate {
            changed = true;
            presets[i].active = activate;
        }
        assert(presets@[i as int] == with_active(old(presets)@[i as int], old(presets)@[i as int].index == index));
        i = i + 1;
    }
    changed
}

/// Activating the same preset twice changes nothing the second time.
pub proof fn lemma_activation_idempotent(
    before: Seq<EquipmentPresetState>,
    after: Seq<EquipmentPresetState>,
    index: i32,
)
    requires
        activated(before, after, index),
    ensures
        !activation_changes(after, index),
        activated(after, after, index),
{
    assert forall|i: int| 0 <= i < after.len() implies #[trigger] after[i] == with_active(after[i], after[i].index == index) by {
        assert(after[i] == with_active(before[i], before[i].index == index));
    }
    assert forall|i: int| 0 <= i < after.len() implies !(#[trigger] after[i].active != (after[i].index == index)) by {
        assert(after[i] == with_active(before[i], before[i].index == index));
    }
}

/// When preset numbers are distinct, at most one preset is active after an
/// activation.
pub proof fn lemma_one_active_preset(
    before: Seq<EquipmentPresetState>,
    after: Seq<EquipmentPresetState>,
    index: i32,
    i: int,
    j: int,
)
    requires
        activated(before, after, index),
        forall|a: int, b: int|
            0 <= a < before.len() && 0 <= b < before.len() && a != b ==> #[trigger] before[a].index
                != #[trigger] before[b].index,
        0 <= i < after.len(),
        0 <= j < after.len(),
        after[i].active,
        after[j].active,
    ensures
        i == j,
{
    assert(after[i] == with_active(before[i], before[i].index == index));
    assert(after[j] == with_active(before[j], before[j].index == index));
}

} // verus!
