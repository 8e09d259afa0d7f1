//! Items as the rest of the client sees them, free of wire specifics.

use vstd::prelude::*;

use crate::wire::{
    EquipPosition, EquippableItemFlags, EquippableItemInformation, InventoryIndex, ItemId, ItemOptions, Price,
    RegularItemFlags, RegularItemInformation, ShopItemInformation,
};

verus! {

/// Marks an item to which the client has not attached anything yet.
#[derive(Debug, Clone, Copy, PartialEq, Eq, Structural)]
pub struct NoMetadata;

/// What distinguishes an item that stacks from one that can be worn.
#[derive(Debug, Clone, Copy, PartialEq, Eq)]
pub enum InventoryItemDetails {
    Regular { amount: u16, equipped_position: EquipPosition, flags: RegularItemFlags },
    Equippable {
        equip_position: EquipPosition,
        equipped_position: EquipPosition,
        bind_on_equip_type: u16,
        w_item_sprite_number: u16,
        option_count: u8,
        option_data: [ItemOptions; 5],
        refinement_level: u8,
        enchantment_level: u8,
        flags: EquippableItemFlags,
    },
}

/// One item of the inventory.
#[derive(Debug, Clone, Copy, PartialEq, Eq)]
pub struct InventoryItem<Meta> {
    pub metadata: Meta,
    pub index: InventoryIndex,
    pub item_id: ItemId,
    pub item_type: u8,
    pub slot: [u32; 4],
    pub hire_expiration_date: u32,
    pub details: InventoryItemDetails,
}

#[derive(Debug, Clone, Copy, PartialEq, Eq, Structural)]
pub enum ItemQuantity {
    Fixed(u32),
    Infinite,
}

/// One offer of a shop.
#[derive(Debug, Clone, Copy, PartialEq, Eq)]
pub struct ShopItem<Meta> {
    pub metadata: Meta,
    pub item_id: ItemId,
    pub item_type: u8,
    pub price: Price,
    pub quantity: ItemQuantity,
    pub weight: u16,
    pub location: u32,
}

/// One item the player can sell to a shop.
#[derive(Debug, Clone, Copy, PartialEq, Eq)]
pub struct SellItem<Meta> {
    pub metadata: Meta,
    pub inventory_index: InventoryIndex,
    pub price: Price,
    pub overcharge_price: Price,
}

/// A stacking item of an item-list packet as an inventory item.
pub open spec fn regular_item(information: RegularItemInformation) -> InventoryItem<NoMetadata> {
    InventoryItem {
        metadata: NoMetadata,
        index: information.index,
        item_id: information.item_id,
        item_type: information.item_type,
        slot: information.slot,
        hire_expiration_date: information.hire_expiration_date,
        details: InventoryItemDetails::Regular {
            amount: information.amount,
            equipped_position: information.equipped_position,
            flags: information.flags,
        },
    }
}

/// A wearable item of an item-list packet as an inventory item.
pub open spec fn equippable_item(information: EquippableItemInformation) -> InventoryItem<NoMetadata> {
    InventoryItem {
        metadata: NoMetadata,
        index: information.index,
        item_id: information.item_id,
        item_type: information.item_type,
        slot: information.slot,
        hire_expiration_date: information.hire_expiration_date,
        details: InventoryItemDetails::Equippable {
            equip_position: information.equip_position,
            equipped_position: information.equipped_position,
            bind_on_equip_type: information.bind_on_equip_type,
            w_item_sprite_number: information.w_item_sprite_number,
            option_count: information.option_count,
            option_data: information.option_data,
            refinement_level: information.refinement_level,
            enchantment_level: information.enchantment_level,
            flags: information.flags,
        },
    }
}

/// An entry of a shop's list as a shop item: shops never run out, and the
/// list carries no weight.
pub open spec fn shop_item(information: ShopItemInformation) -> ShopItem<NoMetadata> {
    ShopItem {
        metadata: NoMetadata,
        item_id: information.item_id,
        item_type: information.item_type,
        price: information.price,
        quantity: ItemQuantity::Infinite,
        weight: 0,
        location: information.location,
    }
}

impl InventoryItem<NoMetadata> {
    pub fn from_regular(information: RegularItemInformation) -> (item: Self)
        ensures
            item == regular_item(information),
    {
        let RegularItemInformation {
            index,
            item_id,
            item_type,
            amount,
            equipped_position,
            slot,
            hire_expiration_date,
            flags,
        } = information;

        InventoryItem {
            index,
            metadata: NoMetadata,
            item_id,
            item_type,
            slot,
            hire_expiration_date,
            details: InventoryItemDetails::Regular { amount, equipped_position, flags },
        }
    }

    pub fn from_equippable(information: EquippableItemInformation) -> (item: Self)
        ensures
            item == equippable_item(information),
    {
        let EquippableItemInformation {
            index,
            item_id,
            item_type,
            equip_position,
            equipped_position,
            slot,
            hire_expiration_date,
            bind_on_equip_type,
            w_item_sprite_number,
            option_count,
            option_data,
            refinement_level,
            enchantment_level,
            flags,
        } = information;

        InventoryItem {
            index,
            metadata: NoMetadata,
            item_id,
            item_type,
            slot,
            hire_expiration_date,
            details: InventoryItemDetails::Equippable {
                equip_position,
                equipped_position,
                bind_on_equip_type,
                w_item_sprite_number,
                option_count,
                option_data,
                refinement_level,
                enchantment_level,
                flags,
            },
        }
    }
}

impl ShopItem<NoMetadata> {
    pub fn from_listing(information: ShopItemInformation) -> (item: Self)
        ensures
            item == shop_item(information),
    {
        ShopItem {
            metadata: NoMetadata,
            item_id: information.item_id,
            item_type: information.item_type,
            price: information.price,
            quantity: ItemQuantity::Infinite,
            weight: 0,
            location: information.location,
        }
    }
}

} // verus!
