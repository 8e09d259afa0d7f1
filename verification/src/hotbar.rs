//! The ten slots of the hotbar.

use vstd::prelude::*;

use crate::command::Command;
use crate::provider::{GameplayProvider, ProviderModel};
use crate::types::NotConnectedError;
use crate::wire::{HotbarSlot, HotbarTab, HotkeyData, SkillId, SkillLevel};

verus! {

/// A skill as the hotbar knows it.
#[derive(Debug, Clone, Copy, PartialEq, Eq, Structural)]
pub struct Skill {
    pub skill_id: SkillId,
    pub skill_level: SkillLevel,
}

/// The wire data that binds a slot to a skill.
pub open spec fn skill_binding(skill: Skill) -> HotkeyData {
    HotkeyData { is_skill: 1, skill_id: skill.skill_id.0 as u32, quantity_or_skill_level: skill.skill_level }
}

/// The wire data for what a slot holds.
pub open spec fn slot_binding(content: Option<Skill>) -> HotkeyData {
    match content {
        Some(skill) => skill_binding(skill),
        None => HotkeyData::spec_unbound(),
    }
}

/// The command that tells the map server what a slot of the first tab holds.
pub open spec fn slot_command(slot: HotbarSlot, content: Option<Skill>) -> Command {
    Command::SetHotkeyData { tab: HotbarTab(0), index: slot, hotkey_data: slot_binding(content) }
}

/// Whether `after` is `before` once it was told what a slot holds. The
/// answer is not looked at: a provider that is not connected stays as it is.
pub open spec fn slot_reported<P: ProviderModel>(before: P, slot: HotbarSlot, content: Option<Skill>, after: P) -> bool {
    exists|answer: Result<(), NotConnectedError>| #[trigger] before.answered(slot_command(slot, content), answer, &after)
}

fn binding_of(content: &Option<Skill>) -> (data: HotkeyData)
    ensures
        data == slot_binding(*content),
{
    match content {
        Some(skill) => HotkeyData {
            is_skill: 1,
            skill_id: skill.skill_id.0 as u32,
            quantity_or_skill_level: skill.skill_level,
        },
        None => HotkeyData::unbound(),
    }
}

pub struct Hotbar {
    skills: [Option<Skill>; 10],
}

impl View for Hotbar {
    type V = Seq<Option<Skill>>;

    closed spec fn view(&self) -> Seq<Option<Skill>> {
        self.skills@
    }
}

impl Hotbar {
    /// The number of slots.
    pub const SLOTS: u16 = 10;

    /// A hotbar whose slots are all empty.
    pub fn new() -> (hotbar: Self)
        ensures
            hotbar@ == Seq::new(10, |i: int| None::<Skill>),
    {
        let hotbar = Hotbar { skills: [None; 10] };
        assert(hotbar@ =~= Seq::new(10, |i: int| None::<Skill>));
        hotbar
    }

    /// A hotbar always has its ten slots.
    pub proof fn lemma_ten_slots(&self)
        ensures
            self@.len() == 10,
    {
    }

    /// Set the slot without notifying the map server.
    pub fn set_slot(&mut self, slot: HotbarSlot, skill: Skill)
        requires
            slot.0 < Hotbar::SLOTS,
        ensures
            final(self)@ == old(self)@.update(slot.0 as int, Some(skill)),
    {
        self.skills[slot.0 as usize] = Some(skill);
    }

    /// Update the slot and notify the map server.
    pub fn update_slot<P: GameplayProvider>(&mut self, provider: &mut P, slot: HotbarSlot, skill: Skill)
        requires
            slot.0 < Hotbar::SLOTS,
            old(provider).wf(),
        ensures
            final(provider).wf(),
            slot_reported(*old(provider), slot, Some(skill), *final(provider)),
            final(self)@ == old(self)@.update(slot.0 as int, Some(skill)),
    {
        let _ = provider.set_hotkey_data(HotbarTab(0), slot, binding_of(&Some(skill)));

        self.skills[slot.0 as usize] = Some(skill);
    }

    /// Swap two slots in the hotbar and notify the map server. The server
    /// learns of the destination first. Swapping a slot with itself does
    /// nothing.
    pub fn swap_slot<P: GameplayProvider>(
        &mut self,
        provider: &mut P,
        source_slot: HotbarSlot,
        destination_slot: HotbarSlot,
    )
        requires
            source_slot.0 < Hotbar::SLOTS,
            destination_slot.0 < Hotbar::SLOTS,
            old(provider).wf(),
        ensures
            final(provider).wf(),
            source_slot == destination_slot ==> final(self)@ == old(self)@ && *final(provider) == *old(provider),
            source_slot != destination_slot ==> final(self)@ == old(self)@.update(
                source_slot.0 as int,
                old(self)@[destination_slot.0 as int],
            ).update(destination_slot.0 as int, old(self)@[source_slot.0 as int]),
            source_slot != destination_slot ==> exists|between: P|
                #[trigger] slot_reported(
                    *old(provider),
                    destination_slot,
                    old(self)@[source_slot.0 as int],
                    between,
                ) && slot_reported(between, source_slot, old(self)@[destination_slot.0 as int], *final(provider)),
    {
        if source_slot.0 != destination_slot.0 {
            let first = self.skills[source_slot.0 as usize];
            let second = self.skills[destination_slot.0 as usize];

            let first_data = binding_of(&first);
            let second_data = binding_of(&second);

            let _ = provider.set_hotkey_data(HotbarTab(0), destination_slot, first_data);
            let ghost between = *provider;
            let _ = provider.set_hotkey_data(HotbarTab(0), source_slot, second_data);

            self.skills[source_slot.0 as usize] = second;
            self.skills[destination_slot.0 as usize] = first;
            proof {
                assert(slot_reported(*old(provider), destination_slot, old(self)@[source_slot.0 as int], between));
            }
        }
    }

    /// Clear the slot without notifying the map server.
    pub fn unset_slot(&mut self, slot: HotbarSlot)
        requires
            slot.0 < Hotbar::SLOTS,
        ensures
            final(self)@ == old(self)@.update(slot.0 as int, None),
    {
        self.skills[slot.0 as usize] = None;
    }

    /// Clear the slot and notify the map server.
    pub fn clear_slot<P: GameplayProvider>(&mut self, provider: &mut P, slot: HotbarSlot)
        requires
            slot.0 < Hotbar::SLOTS,
            old(provider).wf(),
        ensures
            final(provider).wf(),
            slot_reported(*old(provider), slot, None, *final(provider)),
            final(self)@ == old(self)@.update(slot.0 as int, None),
    {
        let _ = provider.set_hotkey_data(HotbarTab(0), slot, HotkeyData::unbound());

        self.skills[slot.0 as usize] = None;
    }

    pub fn get_skill_in_slot(&self, slot: HotbarSlot) -> (skill: &Option<Skill>)
        requires
            slot.0 < Hotbar::SLOTS,
        ensures
            *skill == self@[slot.0 as int],
    {
        &self.skills[slot.0 as usize]
    }
}

impl Default for Hotbar {
    fn default() -> (hotbar: Self)
        ensures
            hotbar@ == Seq::new(10, |i: int| None::<Skill>),
    {
        Hotbar::new()
    }
}

} // verus!
