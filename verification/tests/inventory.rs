use korangar_gameplay::inventory::InventoryAccumulator;
use korangar_gameplay::map::MapServerPacket;
use korangar_gameplay::map_events::handle_map_server_packet;
use korangar_gameplay::wire::{
    EquipPosition, EquippableItemFlags, EquippableItemInformation, InventoryIndex, ItemId, ItemOptions,
    RegularItemFlags, RegularItemInformation,
};
use korangar_gameplay::{GameplayEvent, HandlerOutput, InventoryItem, InventoryItemDetails, NoMetadata};

fn regular(index: u16) -> RegularItemInformation {
    RegularItemInformation {
        index: InventoryIndex(index),
        item_id: ItemId(500 + index as u32),
        item_type: 3,
        amount: 10 + index,
        equipped_position: EquipPosition { bits: 0 },
        slot: [0, 0, 0, 0],
        hire_expiration_date: 0,
        flags: RegularItemFlags { identified: true, in_etc_tab: false },
    }
}

fn regular_as_item(index: u16) -> InventoryItem<NoMetadata> {
    InventoryItem {
        metadata: NoMetadata,
        index: InventoryIndex(index),
        item_id: ItemId(500 + index as u32),
        item_type: 3,
        slot: [0, 0, 0, 0],
        hire_expiration_date: 0,
        details: InventoryItemDetails::Regular {
            amount: 10 + index,
            equipped_position: EquipPosition { bits: 0 },
            flags: RegularItemFlags { identified: true, in_etc_tab: false },
        },
    }
}

fn options() -> [ItemOptions; 5] {
    [ItemOptions { index: 1, value: 2, parameter: 3 }; 5]
}

fn equippable(index: u16) -> EquippableItemInformation {
    EquippableItemInformation {
        index: InventoryIndex(index),
        item_id: ItemId(1200 + index as u32),
        item_type: 5,
        equip_position: EquipPosition { bits: 2 },
        equipped_position: EquipPosition { bits: 0 },
        slot: [4001, 0, 0, 0],
        hire_expiration_date: 7,
        bind_on_equip_type: 1,
        w_item_sprite_number: 9,
        option_count: 2,
        option_data: options(),
        refinement_level: 4,
        enchantment_level: 1,
        flags: EquippableItemFlags { identified: true, is_broken: false, in_etc_tab: false },
    }
}

fn equippable_as_item(index: u16) -> InventoryItem<NoMetadata> {
    InventoryItem {
        metadata: NoMetadata,
        index: InventoryIndex(index),
        item_id: ItemId(1200 + index as u32),
        item_type: 5,
        slot: [4001, 0, 0, 0],
        hire_expiration_date: 7,
        details: InventoryItemDetails::Equippable {
            equip_position: EquipPosition { bits: 2 },
            equipped_position: EquipPosition { bits: 0 },
            bind_on_equip_type: 1,
            w_item_sprite_number: 9,
            option_count: 2,
            option_data: options(),
            refinement_level: 4,
            enchantment_level: 1,
            flags: EquippableItemFlags { identified: true, is_broken: false, in_etc_tab: false },
        },
    }
}

#[test]
fn start_three_regular_two_equippable_end_yields_five_items_in_arrival_order() {
    let mut inventory = InventoryAccumulator::new();

    assert_eq!(handle_map_server_packet(MapServerPacket::InventoyStartPacket, &mut inventory), HandlerOutput::Nothing);
    assert!(inventory.is_active());
    assert_eq!(
        handle_map_server_packet(
            MapServerPacket::RegularItemListPacket { item_information: vec![regular(0), regular(1), regular(2)] },
            &mut inventory
        ),
        HandlerOutput::Nothing
    );
    assert_eq!(inventory.collected(), Some(3));
    assert_eq!(
        handle_map_server_packet(
            MapServerPacket::EquippableItemListPacket { item_information: vec![equippable(3), equippable(4)] },
            &mut inventory
        ),
        HandlerOutput::Nothing
    );
    assert_eq!(inventory.collected(), Some(5));

    let output = handle_map_server_packet(MapServerPacket::InventoyEndPacket, &mut inventory);
    assert_eq!(
        output,
        HandlerOutput::One(GameplayEvent::SetInventory {
            items: vec![
                regular_as_item(0),
                regular_as_item(1),
                regular_as_item(2),
                equippable_as_item(3),
                equippable_as_item(4),
            ],
        })
    );
    assert!(!inventory.is_active());
    assert_eq!(inventory.collected(), None);
}

#[test]
fn item_lists_of_any_lengths_are_joined_in_order() {
    let lengths = [0usize, 4, 1, 0, 3];
    let mut inventory = InventoryAccumulator::new();
    let mut expected = Vec::new();
    let mut next = 0u16;

    assert!(inventory.start());
    for length in lengths {
        let mut list = Vec::new();
        for _ in 0..length {
            list.push(regular(next));
            expected.push(regular_as_item(next));
            next += 1;
        }
        assert!(inventory.extend_regular(list));
    }

    let items = inventory.finish().unwrap();
    assert_eq!(items.len(), 8);
    assert_eq!(items, expected);
}

#[test]
fn an_inventory_without_items_is_empty() {
    let mut inventory = InventoryAccumulator::new();
    handle_map_server_packet(MapServerPacket::InventoyStartPacket, &mut inventory);
    assert_eq!(
        handle_map_server_packet(MapServerPacket::InventoyEndPacket, &mut inventory),
        HandlerOutput::One(GameplayEvent::SetInventory { items: vec![] })
    );
}

#[test]
fn item_list_without_start_yields_nothing() {
    let mut inventory = InventoryAccumulator::new();

    assert_eq!(
        handle_map_server_packet(
            MapServerPacket::RegularItemListPacket { item_information: vec![regular(0), regular(1)] },
            &mut inventory
        ),
        HandlerOutput::Nothing
    );
    assert!(!inventory.is_active());
    assert_eq!(
        handle_map_server_packet(
            MapServerPacket::EquippableItemListPacket { item_information: vec![equippable(0)] },
            &mut inventory
        ),
        HandlerOutput::Nothing
    );
    assert!(!inventory.is_active());
    assert!(!inventory.extend_regular(vec![regular(5)]));
    assert!(!inventory.extend_equippable(vec![equippable(5)]));
    assert_eq!(inventory.collected(), None);
}

#[test]
fn end_without_start_yields_nothing() {
    let mut inventory = InventoryAccumulator::new();
    assert_eq!(handle_map_server_packet(MapServerPacket::InventoyEndPacket, &mut inventory), HandlerOutput::Nothing);
    assert_eq!(inventory.finish(), None);
    assert!(!inventory.is_active());
}

#[test]
fn items_dropped_before_a_start_do_not_show_in_the_inventory() {
    let mut inventory = InventoryAccumulator::new();
    handle_map_server_packet(
        MapServerPacket::RegularItemListPacket { item_information: vec![regular(9)] },
        &mut inventory,
    );
    handle_map_server_packet(MapServerPacket::InventoyStartPacket, &mut inventory);
    handle_map_server_packet(
        MapServerPacket::RegularItemListPacket { item_information: vec![regular(1)] },
        &mut inventory,
    );
    assert_eq!(
        handle_map_server_packet(MapServerPacket::InventoyEndPacket, &mut inventory),
        HandlerOutput::One(GameplayEvent::SetInventory { items: vec![regular_as_item(1)] })
    );
}

#[test]
fn a_second_start_begins_anew() {
    let mut inventory = InventoryAccumulator::new();

    assert!(inventory.start());
    assert!(inventory.extend_regular(vec![regular(0), regular(1)]));
    assert!(!inventory.start());
    assert_eq!(inventory.collected(), Some(0));
    assert!(inventory.extend_regular(vec![regular(2)]));
    assert_eq!(inventory.finish(), Some(vec![regular_as_item(2)]));
}

#[test]
fn a_reset_leaves_the_sequence() {
    let mut inventory = InventoryAccumulator::new();
    inventory.start();
    inventory.extend_regular(vec![regular(0)]);
    inventory.reset();
    assert!(!inventory.is_active());
    assert_eq!(inventory.finish(), None);
}

#[test]
fn two_sequences_in_a_row_yield_two_inventories() {
    let mut inventory = InventoryAccumulator::new();
    inventory.start();
    inventory.extend_regular(vec![regular(0)]);
    assert_eq!(inventory.finish(), Some(vec![regular_as_item(0)]));
    inventory.start();
    inventory.extend_equippable(vec![equippable(1)]);
    assert_eq!(inventory.finish(), Some(vec![equippable_as_item(1)]));
}
