//! What the client learns of an entity when it comes into sight.

use vstd::prelude::*;

use crate::wire::{EntityId, Sex, WorldPosition};

verus! {

#[derive(Debug, Clone, Copy, PartialEq, Eq, Structural)]
pub struct EntityData {
    pub entity_id: EntityId,
    pub movement_speed: u16,
    pub job: u16,
    pub head: u16,
    pub position: WorldPosition,
    pub destination: Option<WorldPosition>,
    pub health_points: i32,
    pub maximum_health_points: i32,
    pub head_direction: usize,
    pub sex: Sex,
}

/// What the packets that announce an entity have in common.
#[derive(Debug, Clone, Copy, PartialEq, Eq, Structural)]
pub struct EntityAppearance {
    pub entity_id: EntityId,
    pub movement_speed: u16,
    pub job: u16,
    pub head: u16,
    pub health_points: i32,
    pub maximum_health_points: i32,
    pub head_direction: u16,
    pub sex: Sex,
}

impl EntityData {
    /// The data of an entity that stands at `position`, or is on its way from
    /// there to `destination`.
    pub open spec fn appeared(
        appearance: EntityAppearance,
        position: WorldPosition,
        destination: Option<WorldPosition>,
    ) -> EntityData {
        EntityData {
            entity_id: appearance.entity_id,
            movement_speed: appearance.movement_speed,
            job: appearance.job,
            head: appearance.head,
            position,
            destination,
            health_points: appearance.health_points,
            maximum_health_points: appearance.maximum_health_points,
            head_direction: appearance.head_direction as usize,
            sex: appearance.sex,
        }
    }

    pub fn from_appearance(
        appearance: EntityAppearance,
        position: WorldPosition,
        destination: Option<WorldPosition>,
    ) -> (data: Self)
        ensures
            data == EntityData::appeared(appearance, position, destination),
    {
        EntityData {
            entity_id: appearance.entity_id,
            movement_speed: appearance.movement_speed,
            job: appearance.job,
            head: appearance.head,
            position,
            destination,
            health_points: appearance.health_points,
            maximum_health_points: appearance.maximum_health_points,
            head_direction: appearance.head_direction as usize,
            sex: appearance.sex,
        }
    }
}

} // verus!
