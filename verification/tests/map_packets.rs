use korangar_gameplay::entity::EntityAppearance;
use korangar_gameplay::inventory::InventoryAccumulator;
use korangar_gameplay::map::{Damage, ItemPickup, MapServerPacket};
use korangar_gameplay::map_events::{
    handle_map_server_packet, hotkey_states, shop_items, translate_damage, translate_friend_request_result,
    translate_item_pickup, translate_map_server_packet, visual_effect_path,
};
use korangar_gameplay::text::{join3, replace, split_nonempty};
use korangar_gameplay::wire::{
    AccountId, BuyShopItemsResult, CharacterId, ClientTick, ColorRGBA, DamageType, Direction, DisappearanceReason,
    DisconnectResponseStatus, EntityId, EquipPosition, EquippableItemFlags, Friend, FriendRequestResult, HotbarTab,
    HotkeyData, InventoryIndex, ItemId, ItemOptions, ItemPickupResult, Price, QuestColor, QuestEffect,
    QuestEffectPacket, RegularItemFlags, RemoveItemReason, RequestEquipItemStatus, RequestUnequipItemStatus,
    RestartResponseStatus, SellItemInformation, SellItemsResult, Sex, ShopId, ShopItemInformation, SkillId,
    SkillInformation, SkillLevel, SkillType, SpriteChangeType, StatType, TilePosition, UnitId, VisualEffect,
    WorldPosition,
};
use korangar_gameplay::{
    EntityData, GameplayEvent, HandlerOutput, HotkeyState, InventoryItem, InventoryItemDetails, ItemQuantity,
    MessageColor, NoMetadata, PacketKind, ShopItem,
};

fn handle(packet: MapServerPacket) -> HandlerOutput {
    let mut inventory = InventoryAccumulator::new();
    let output = handle_map_server_packet(packet, &mut inventory);
    assert!(!inventory.is_active());
    output
}

fn one(event: GameplayEvent) -> HandlerOutput {
    HandlerOutput::One(event)
}

fn place(x: usize, y: usize) -> WorldPosition {
    WorldPosition { x, y, direction: Direction::N }
}

fn appearance() -> EntityAppearance {
    EntityAppearance {
        entity_id: EntityId(77),
        movement_speed: 150,
        job: 1002,
        head: 3,
        health_points: 40,
        maximum_health_points: 60,
        head_direction: 2,
        sex: Sex::Male,
    }
}

fn entity(position: WorldPosition, destination: Option<WorldPosition>) -> EntityData {
    EntityData {
        entity_id: EntityId(77),
        movement_speed: 150,
        job: 1002,
        head: 3,
        position,
        destination,
        health_points: 40,
        maximum_health_points: 60,
        head_direction: 2,
        sex: Sex::Male,
    }
}

#[test]
fn a_ping_yields_nothing() {
    assert_eq!(handle(MapServerPacket::MapServerPingPacket), HandlerOutput::Nothing);
}

#[test]
fn chat_lines_keep_their_text_and_get_their_colour() {
    assert_eq!(
        handle(MapServerPacket::BroadcastMessagePacket { message: "hello".to_string() }),
        one(GameplayEvent::ChatMessage { text: "hello".to_string(), color: MessageColor::Broadcast })
    );
    assert_eq!(
        handle(MapServerPacket::ServerMessagePacket { message: "maintenance".to_string() }),
        one(GameplayEvent::ChatMessage { text: "maintenance".to_string(), color: MessageColor::Server })
    );
    assert_eq!(
        handle(MapServerPacket::Broadcast2MessagePacket {
            message: "event".to_string(),
            font_color: ColorRGBA { red: 1, green: 2, blue: 3, alpha: 0 },
        }),
        one(GameplayEvent::ChatMessage { text: "event".to_string(), color: MessageColor::Rgb { red: 1, green: 2, blue: 3 } })
    );
    assert_eq!(
        handle(MapServerPacket::EntityMessagePacket {
            message: "npc : hi".to_string(),
            color: ColorRGBA { red: 250, green: 0, blue: 9, alpha: 255 },
        }),
        one(GameplayEvent::ChatMessage {
            text: "npc : hi".to_string(),
            color: MessageColor::Rgb { red: 250, green: 0, blue: 9 },
        })
    );
}

#[test]
fn an_overhead_message_is_shown_as_a_broadcast() {
    // Undecided: the overhead message has no event of its own.
    assert_eq!(
        handle(MapServerPacket::OverheadMessagePacket { message: "ouch".to_string() }),
        one(GameplayEvent::ChatMessage { text: "ouch".to_string(), color: MessageColor::Broadcast })
    );
}

#[test]
fn movement_is_handed_on() {
    assert_eq!(
        handle(MapServerPacket::EntityMovePacket {
            entity_id: EntityId(5),
            origin: place(1, 2),
            destination: place(3, 4),
            starting_timestamp: ClientTick(99),
        }),
        one(GameplayEvent::EntityMove {
            entity_id: EntityId(5),
            origin: place(1, 2),
            destination: place(3, 4),
            starting_timestamp: ClientTick(99),
        })
    );
    assert_eq!(
        handle(MapServerPacket::PlayerMovePacket {
            starting_timestamp: ClientTick(7),
            origin: place(10, 20),
            destination: place(30, 40),
        }),
        one(GameplayEvent::PlayerMove {
            origin: place(10, 20),
            destination: place(30, 40),
            starting_timestamp: ClientTick(7),
        })
    );
}

#[test]
fn a_map_change_drops_the_extension() {
    assert_eq!(
        handle(MapServerPacket::ChangeMapPacket {
            map_name: "prontera.gat".to_string(),
            position: TilePosition { x: 156, y: 191 },
        }),
        one(GameplayEvent::ChangeMap { map_name: "prontera".to_string(), position: TilePosition { x: 156, y: 191 } })
    );
    assert_eq!(
        handle(MapServerPacket::ChangeMapPacket {
            map_name: "geffen".to_string(),
            position: TilePosition { x: 1, y: 2 },
        }),
        one(GameplayEvent::ChangeMap { map_name: "geffen".to_string(), position: TilePosition { x: 1, y: 2 } })
    );
    assert_eq!(
        handle(MapServerPacket::ChangeMapPacket {
            map_name: "a.gat.gatb.ga.gat".to_string(),
            position: TilePosition { x: 0, y: 0 },
        }),
        one(GameplayEvent::ChangeMap { map_name: "ab.ga".to_string(), position: TilePosition { x: 0, y: 0 } })
    );
}

#[test]
fn entities_appear_and_disappear() {
    assert_eq!(
        handle(MapServerPacket::EntityAppearedPacket { appearance: appearance(), position: place(5, 6) }),
        one(GameplayEvent::AddEntity { entity_data: entity(place(5, 6), None) })
    );
    assert_eq!(
        handle(MapServerPacket::EntityAppeared2Packet { appearance: appearance(), position: place(8, 9) }),
        one(GameplayEvent::AddEntity { entity_data: entity(place(8, 9), None) })
    );
    assert_eq!(
        handle(MapServerPacket::MovingEntityAppearedPacket {
            appearance: appearance(),
            origin: place(1, 1),
            destination: place(4, 4),
        }),
        one(GameplayEvent::AddEntity { entity_data: entity(place(1, 1), Some(place(4, 4))) })
    );
    assert_eq!(
        handle(MapServerPacket::EntityDisappearedPacket { entity_id: EntityId(77), reason: DisappearanceReason::Died }),
        one(GameplayEvent::RemoveEntity { entity_id: EntityId(77), reason: DisappearanceReason::Died })
    );
    assert_eq!(
        handle(MapServerPacket::ResurrectionPacket { entity_id: EntityId(77) }),
        one(GameplayEvent::ResurrectPlayer { entity_id: EntityId(77) })
    );
    assert_eq!(EntityData::from_appearance(appearance(), place(2, 3), None), entity(place(2, 3), None));
}

#[test]
fn every_stat_packet_updates_the_stat() {
    let expected = || one(GameplayEvent::UpdateStat { stat_type: StatType::BaseLevel(12) });
    assert_eq!(handle(MapServerPacket::UpdateStatPacket { stat_type: StatType::BaseLevel(12) }), expected());
    assert_eq!(handle(MapServerPacket::UpdateStatPacket1 { stat_type: StatType::BaseLevel(12) }), expected());
    assert_eq!(handle(MapServerPacket::UpdateStatPacket2 { stat_type: StatType::BaseLevel(12) }), expected());
    assert_eq!(handle(MapServerPacket::UpdateStatPacket3 { stat_type: StatType::BaseLevel(12) }), expected());
    assert_eq!(
        handle(MapServerPacket::UpdateStatPacket { stat_type: StatType::Strength(9, 2) }),
        one(GameplayEvent::UpdateStat { stat_type: StatType::Strength(9, 2) })
    );
}

#[test]
fn a_sprite_change_is_a_job_or_a_hair_change_or_nothing() {
    assert_eq!(
        handle(MapServerPacket::SpriteChangePacket {
            account_id: AccountId(3),
            sprite_type: SpriteChangeType::Base,
            value: 4012,
        }),
        one(GameplayEvent::ChangeJob { account_id: AccountId(3), job_id: 4012 })
    );
    assert_eq!(
        handle(MapServerPacket::SpriteChangePacket {
            account_id: AccountId(3),
            sprite_type: SpriteChangeType::Hair,
            value: 17,
        }),
        one(GameplayEvent::ChangeHair { account_id: AccountId(3), hair_id: 17 })
    );
    assert_eq!(
        handle(MapServerPacket::SpriteChangePacket {
            account_id: AccountId(3),
            sprite_type: SpriteChangeType::Weapon,
            value: 1,
        }),
        HandlerOutput::Nothing
    );
}

#[test]
fn skills_and_hotkeys_and_stats_are_set_up() {
    let skill = || SkillInformation {
        skill_id: SkillId(28),
        skill_type: SkillType::Support,
        skill_level: SkillLevel(10),
        spell_point_cost: 40,
        attack_range: 9,
        skill_name: "AL_HEAL".to_string(),
        upgraded: 0,
    };
    assert_eq!(
        handle(MapServerPacket::UpdateSkillTreePacket { skill_information: vec![skill()] }),
        one(GameplayEvent::SkillTree { skill_information: vec![skill()] })
    );

    let bound = HotkeyData { is_skill: 1, skill_id: 28, quantity_or_skill_level: SkillLevel(10) };
    let item = HotkeyData { is_skill: 0, skill_id: 501, quantity_or_skill_level: SkillLevel(0) };
    assert_eq!(
        handle(MapServerPacket::UpdateHotkeysPacket {
            tab: HotbarTab(1),
            hotkeys: vec![bound, HotkeyData::unbound(), item],
        }),
        one(GameplayEvent::SetHotkeyData {
            tab: HotbarTab(1),
            hotkeys: vec![HotkeyState::Bound(bound), HotkeyState::Unbound, HotkeyState::Bound(item)],
        })
    );
    assert_eq!(hotkey_states(vec![]), vec![]);
    assert_eq!(HotkeyState::from_data(HotkeyData::unbound()), HotkeyState::Unbound);
    assert_eq!(
        HotkeyState::from_data(HotkeyData { is_skill: 0, skill_id: 0, quantity_or_skill_level: SkillLevel(1) }),
        HotkeyState::Bound(HotkeyData { is_skill: 0, skill_id: 0, quantity_or_skill_level: SkillLevel(1) })
    );

    assert_eq!(
        handle(MapServerPacket::InitialStatsPacket {
            strength_stat_points_cost: 2,
            agility_stat_points_cost: 3,
            vitality_stat_points_cost: 4,
            intelligence_stat_points_cost: 5,
            dexterity_stat_points_cost: 6,
            luck_stat_points_cost: 7,
        }),
        one(GameplayEvent::InitialStats {
            strength_stat_points_cost: 2,
            agility_stat_points_cost: 3,
            vitality_stat_points_cost: 4,
            intelligence_stat_points_cost: 5,
            dexterity_stat_points_cost: 6,
            luck_stat_points_cost: 7,
        })
    );
}

#[test]
fn dialogs_open_and_offer_their_buttons() {
    assert_eq!(
        handle(MapServerPacket::NpcDialogPacket { npc_id: EntityId(9), text: "Welcome.".to_string() }),
        one(GameplayEvent::OpenDialog { text: "Welcome.".to_string(), npc_id: EntityId(9) })
    );
    assert_eq!(
        handle(MapServerPacket::NextButtonPacket { npc_id: EntityId(9) }),
        one(GameplayEvent::AddNextButton { npc_id: EntityId(9) })
    );
    assert_eq!(
        handle(MapServerPacket::CloseButtonPacket { npc_id: EntityId(9) }),
        one(GameplayEvent::AddCloseButton { npc_id: EntityId(9) })
    );
    assert_eq!(
        handle(MapServerPacket::DialogMenuPacket { npc_id: EntityId(9), message: "Yes:No::Maybe:".to_string() }),
        one(GameplayEvent::AddChoiceButtons {
            choices: vec!["Yes".to_string(), "No".to_string(), "Maybe".to_string()],
            npc_id: EntityId(9),
        })
    );
}

#[test]
fn text_is_split_at_the_separator_without_empty_parts() {
    assert_eq!(split_nonempty("", ':'), Vec::<String>::new());
    assert_eq!(split_nonempty(":", ':'), Vec::<String>::new());
    assert_eq!(split_nonempty(":::", ':'), Vec::<String>::new());
    assert_eq!(split_nonempty("one", ':'), vec!["one".to_string()]);
    assert_eq!(split_nonempty(":one", ':'), vec!["one".to_string()]);
    assert_eq!(split_nonempty("one:", ':'), vec!["one".to_string()]);
    assert_eq!(split_nonempty("a:b", ':'), vec!["a".to_string(), "b".to_string()]);
    assert_eq!(split_nonempty("a::b", ':'), vec!["a".to_string(), "b".to_string()]);
    assert_eq!(split_nonempty("ä:ö ü:", ':'), vec!["ä".to_string(), "ö ü".to_string()]);
    assert_eq!(split_nonempty("a:b", ','), vec!["a:b".to_string()]);
    assert_eq!(join3("a", "", "c"), "ac");
    assert_eq!(join3("one ", "two", " three"), "one two three");
}

#[test]
fn effects_are_shown() {
    assert_eq!(
        handle(MapServerPacket::DisplaySkillEffectNoDamagePacket { destination_entity_id: EntityId(4), heal_amount: 120 }),
        one(GameplayEvent::HealEffect { entity_id: EntityId(4), heal_amount: 120 })
    );
    assert_eq!(
        handle(MapServerPacket::VisualEffectPacket { entity_id: EntityId(4), effect: VisualEffect::JobLevelUp }),
        one(GameplayEvent::VisualEffect { effect_path: "joblvup.str", entity_id: EntityId(4) })
    );
    assert_eq!(visual_effect_path(VisualEffect::BaseLevelUp), "angel.str");
    assert_eq!(visual_effect_path(VisualEffect::JobLevelUp), "joblvup.str");
    assert_eq!(visual_effect_path(VisualEffect::RefineFailure), "bs_refinefailed.str");
    assert_eq!(visual_effect_path(VisualEffect::RefineSuccess), "bs_refinesuccess.str");
    assert_eq!(visual_effect_path(VisualEffect::GameOver), "help_angel\\help_angel\\help_angel.str");
    assert_eq!(visual_effect_path(VisualEffect::PharmacySuccess), "p_success.str");
    assert_eq!(visual_effect_path(VisualEffect::PharmacyFailure), "p_failed.str");
    assert_eq!(visual_effect_path(VisualEffect::BaseLevelUpSuperNovice), "help_angel\\help_angel\\help_angel.str");
    assert_eq!(visual_effect_path(VisualEffect::JobLevelUpSuperNovice), "help_angel\\help_angel\\help_angel.str");
    assert_eq!(visual_effect_path(VisualEffect::BaseLevelUpTaekwon), "help_angel\\help_angel\\help_angel.str");
}

#[test]
fn quest_effects_are_added_and_removed() {
    let shown = QuestEffectPacket {
        entity_id: EntityId(6),
        position: TilePosition { x: 3, y: 4 },
        effect: QuestEffect::Quest,
        color: QuestColor::Yellow,
    };
    let gone = QuestEffectPacket { effect: QuestEffect::NoEffect, ..shown };
    assert_eq!(handle(MapServerPacket::QuestEffectPacket(shown)), one(GameplayEvent::AddQuestEffect { quest_effect: shown }));
    assert_eq!(
        handle(MapServerPacket::QuestEffectPacket(gone)),
        one(GameplayEvent::RemoveQuestEffect { entity_id: EntityId(6) })
    );
}

fn options() -> [ItemOptions; 5] {
    [ItemOptions { index: 0, value: 0, parameter: 0 }; 5]
}

fn pickup(equip_position: u32, result: ItemPickupResult) -> ItemPickup {
    ItemPickup {
        index: InventoryIndex(2),
        count: 3,
        item_id: ItemId(501),
        is_identified: 1,
        is_broken: 0,
        cards: [0, 0, 0, 0],
        equip_position: EquipPosition { bits: equip_position },
        item_type: 0,
        result,
        hire_expiration_date: 0,
        bind_on_equip_type: 0,
        option_data: options(),
        favorite: 0,
        look: 0,
        refinement_level: 0,
        enchantment_level: 0,
    }
}

#[test]
fn a_picked_up_item_without_a_place_to_wear_it_stacks() {
    let expected = InventoryItem {
        metadata: NoMetadata,
        index: InventoryIndex(2),
        item_id: ItemId(501),
        item_type: 0,
        slot: [0, 0, 0, 0],
        hire_expiration_date: 0,
        details: InventoryItemDetails::Regular {
            amount: 3,
            equipped_position: EquipPosition { bits: 0 },
            flags: RegularItemFlags { identified: true, in_etc_tab: false },
        },
    };
    assert_eq!(translate_item_pickup(pickup(0, ItemPickupResult::Success)), expected);
    assert_eq!(
        handle(MapServerPacket::ItemPickupPacket(pickup(0, ItemPickupResult::Success))),
        one(GameplayEvent::IventoryItemAdded { item: expected })
    );
}

#[test]
fn a_picked_up_item_with_a_place_to_wear_it_is_wearable_and_not_worn() {
    let mut packet = pickup(34, ItemPickupResult::Success);
    packet.is_identified = 0;
    packet.is_broken = 1;
    packet.refinement_level = 7;
    packet.enchantment_level = 2;
    packet.bind_on_equip_type = 1;
    packet.cards = [4001, 4002, 0, 0];
    let expected = InventoryItem {
        metadata: NoMetadata,
        index: InventoryIndex(2),
        item_id: ItemId(501),
        item_type: 0,
        slot: [4001, 4002, 0, 0],
        hire_expiration_date: 0,
        details: InventoryItemDetails::Equippable {
            equip_position: EquipPosition { bits: 34 },
            equipped_position: EquipPosition { bits: 0 },
            bind_on_equip_type: 1,
            w_item_sprite_number: 0,
            option_count: 5,
            option_data: options(),
            refinement_level: 7,
            enchantment_level: 2,
            flags: EquippableItemFlags { identified: false, is_broken: true, in_etc_tab: false },
        },
    };
    assert_eq!(translate_item_pickup(packet), expected);
}

#[test]
fn an_item_that_was_not_picked_up_is_not_supported() {
    // Undecided: what a failed pickup becomes.
    assert!(MapServerPacket::ItemPickupPacket(pickup(0, ItemPickupResult::Success)).is_supported());
    assert!(!MapServerPacket::ItemPickupPacket(pickup(0, ItemPickupResult::Overweight)).is_supported());
    assert!(!MapServerPacket::ItemPickupPacket(pickup(0, ItemPickupResult::NoInventorySpace)).is_supported());
    assert!(MapServerPacket::MapServerPingPacket.is_supported());
    assert!(MapServerPacket::Other(PacketKind::QuestListPacket).is_supported());
}

#[test]
fn removed_items_are_handed_on() {
    assert_eq!(
        handle(MapServerPacket::RemoveItemFromInventoryPacket {
            remove_reason: RemoveItemReason::ItemSold,
            index: InventoryIndex(4),
            amount: 2,
        }),
        one(GameplayEvent::InventoryItemRemoved { reason: RemoveItemReason::ItemSold, index: InventoryIndex(4), amount: 2 })
    );
}

#[test]
fn ticks_are_stamped_with_the_time_of_arrival() {
    let before = std::time::Instant::now();
    let output = handle(MapServerPacket::ServerTickPacket { client_tick: ClientTick(1234) });
    let after = std::time::Instant::now();
    match output {
        HandlerOutput::One(GameplayEvent::UpdateClientTick { client_tick, received_at }) => {
            assert_eq!(client_tick, ClientTick(1234));
            assert!(before <= received_at && received_at <= after);
        }
        other => panic!("unexpected output {:?}", other),
    }
    match handle(MapServerPacket::MapServerLoginSuccessPacket { client_tick: ClientTick(5) }) {
        HandlerOutput::One(GameplayEvent::UpdateClientTick { client_tick, received_at }) => {
            assert_eq!(client_tick, ClientTick(5));
            assert!(after <= received_at);
        }
        other => panic!("unexpected output {:?}", other),
    }
}

#[test]
fn a_packet_translated_at_a_given_time_carries_that_time() {
    let moment = std::time::Instant::now();
    let mut inventory = InventoryAccumulator::new();
    assert_eq!(
        translate_map_server_packet(
            MapServerPacket::ServerTickPacket { client_tick: ClientTick(8) },
            &mut inventory,
            moment
        ),
        one(GameplayEvent::UpdateClientTick { client_tick: ClientTick(8), received_at: moment })
    );
}

#[test]
fn details_and_health_are_updated() {
    assert_eq!(
        handle(MapServerPacket::RequestPlayerDetailsSuccessPacket { character_id: CharacterId(150000), name: "Sasami".to_string() }),
        one(GameplayEvent::UpdateEntityDetails { entity_id: EntityId(150000), name: "Sasami".to_string() })
    );
    assert_eq!(
        handle(MapServerPacket::RequestEntityDetailsSuccessPacket { entity_id: EntityId(8), name: "Poring".to_string() }),
        one(GameplayEvent::UpdateEntityDetails { entity_id: EntityId(8), name: "Poring".to_string() })
    );
    assert_eq!(
        handle(MapServerPacket::UpdateEntityHealthPointsPacket {
            entity_id: EntityId(8),
            health_points: 4_000_000_000,
            maximum_health_points: 4_294_967_295,
        }),
        one(GameplayEvent::UpdateEntityHealth {
            entity_id: EntityId(8),
            health_points: 4_000_000_000,
            maximum_health_points: 4_294_967_295,
        })
    );
}

#[test]
fn a_failed_attack_is_handed_on() {
    assert_eq!(
        handle(MapServerPacket::RequestPlayerAttackFailedPacket {
            target_entity_id: EntityId(8),
            target_position: TilePosition { x: 10, y: 11 },
            player_position: TilePosition { x: 1, y: 2 },
            attack_range: 3,
        }),
        one(GameplayEvent::AttackFailed {
            target_entity_id: EntityId(8),
            target_position: TilePosition { x: 10, y: 11 },
            player_position: TilePosition { x: 1, y: 2 },
            attack_range: 3,
        })
    );
}

fn damage(damage_amount: i32, damage_type: DamageType) -> Damage {
    Damage {
        source_entity_id: EntityId(1),
        destination_entity_id: EntityId(2),
        attack_duration: 480,
        damage_amount,
        damage_type,
    }
}

#[test]
fn damage_is_shown_if_it_is_positive() {
    let hit = |damage_amount, is_critical| {
        Some(GameplayEvent::DamageEffect {
            source_entity_id: EntityId(1),
            destination_entity_id: EntityId(2),
            damage_amount,
            attack_duration: 480,
            is_critical,
        })
    };
    assert_eq!(translate_damage(damage(35, DamageType::Damage)), hit(Some(35), false));
    assert_eq!(translate_damage(damage(1, DamageType::Damage)), hit(Some(1), false));
    assert_eq!(translate_damage(damage(0, DamageType::Damage)), hit(None, false));
    assert_eq!(translate_damage(damage(-4, DamageType::Damage)), hit(None, false));
    assert_eq!(translate_damage(damage(2147483647, DamageType::CriticalHit)), hit(Some(2147483647), true));
    assert_eq!(translate_damage(damage(0, DamageType::CriticalHit)), hit(None, true));
    assert_eq!(
        translate_damage(damage(0, DamageType::StandUp)),
        Some(GameplayEvent::PlayerStandUp { entity_id: EntityId(2) })
    );
    assert_eq!(translate_damage(damage(10, DamageType::SitDown)), None);
    assert_eq!(translate_damage(damage(10, DamageType::MultiHitDamage)), None);

    assert_eq!(
        handle(MapServerPacket::DamagePacket1(damage(35, DamageType::Damage))),
        one(hit(Some(35), false).unwrap())
    );
    assert_eq!(
        handle(MapServerPacket::DamagePacket3(damage(35, DamageType::CriticalHit))),
        one(hit(Some(35), true).unwrap())
    );
    assert_eq!(handle(MapServerPacket::DamagePacket3(damage(35, DamageType::LuckyDodge))), HandlerOutput::Nothing);
}

#[test]
fn equipment_changes_on_success_only() {
    assert_eq!(
        handle(MapServerPacket::RequestEquipItemStatusPacket {
            inventory_index: InventoryIndex(3),
            equipped_position: EquipPosition { bits: 2 },
            result: RequestEquipItemStatus::Success,
        }),
        one(GameplayEvent::UpdateEquippedPosition { index: InventoryIndex(3), equipped_position: EquipPosition { bits: 2 } })
    );
    assert_eq!(
        handle(MapServerPacket::RequestEquipItemStatusPacket {
            inventory_index: InventoryIndex(3),
            equipped_position: EquipPosition { bits: 2 },
            result: RequestEquipItemStatus::FailedDueToLevelRequirement,
        }),
        HandlerOutput::Nothing
    );
    assert_eq!(
        handle(MapServerPacket::RequestUnequipItemStatusPacket {
            inventory_index: InventoryIndex(3),
            result: RequestUnequipItemStatus::Success,
        }),
        one(GameplayEvent::UpdateEquippedPosition { index: InventoryIndex(3), equipped_position: EquipPosition { bits: 0 } })
    );
    assert_eq!(
        handle(MapServerPacket::RequestUnequipItemStatusPacket {
            inventory_index: InventoryIndex(3),
            result: RequestUnequipItemStatus::Failed,
        }),
        HandlerOutput::Nothing
    );
    assert!(EquipPosition::empty().is_empty());
    assert!(!EquipPosition { bits: 4 }.is_empty());
}

#[test]
fn logging_out_succeeds_or_is_explained() {
    assert_eq!(
        handle(MapServerPacket::RestartResponsePacket { result: RestartResponseStatus::Accepted }),
        one(GameplayEvent::LoggedOut)
    );
    assert_eq!(
        handle(MapServerPacket::RestartResponsePacket { result: RestartResponseStatus::Nothing }),
        one(GameplayEvent::ChatMessage { text: "Failed to log out.".to_string(), color: MessageColor::Error })
    );
    assert_eq!(
        handle(MapServerPacket::DisconnectResponsePacket { result: DisconnectResponseStatus::Accepted }),
        one(GameplayEvent::LoggedOut)
    );
    assert_eq!(
        handle(MapServerPacket::DisconnectResponsePacket { result: DisconnectResponseStatus::Wait10Seconds }),
        one(GameplayEvent::ChatMessage {
            text: "Please wait 10 seconds before trying to log out.".to_string(),
            color: MessageColor::Error,
        })
    );
}

#[test]
fn skill_units_come_and_go() {
    assert_eq!(
        handle(MapServerPacket::NotifySkillUnitPacket {
            entity_id: EntityId(3),
            position: TilePosition { x: 5, y: 6 },
            unit_id: UnitId(127),
        }),
        one(GameplayEvent::AddSkillUnit { entity_id: EntityId(3), unit_id: UnitId(127), position: TilePosition { x: 5, y: 6 } })
    );
    assert_eq!(
        handle(MapServerPacket::SkillUnitDisappearPacket { entity_id: EntityId(3) }),
        one(GameplayEvent::RemoveSkillUnit { entity_id: EntityId(3) })
    );
}

fn friend() -> Friend {
    Friend { account_id: AccountId(2000001), character_id: CharacterId(150001), name: "Lucy".to_string() }
}

fn line(text: &str) -> GameplayEvent {
    GameplayEvent::ChatMessage { text: text.to_string(), color: MessageColor::Information }
}

#[test]
fn an_accepted_friend_request_tells_and_adds_the_friend() {
    assert_eq!(
        handle(MapServerPacket::FriendRequestResultPacket { result: FriendRequestResult::Accepted, friend: friend() }),
        HandlerOutput::Many(vec![
            line("You have become friends with Lucy."),
            GameplayEvent::FriendAdded { friend: friend() },
        ])
    );
}

#[test]
fn a_friend_request_that_was_not_accepted_is_only_told() {
    assert_eq!(
        translate_friend_request_result(FriendRequestResult::Rejected, friend()),
        vec![line("Lucy does not want to be friends with you.")]
    );
    assert_eq!(
        translate_friend_request_result(FriendRequestResult::OwnFriendListFull, friend()),
        vec![line("Your Friend List is full.")]
    );
    assert_eq!(
        translate_friend_request_result(FriendRequestResult::OtherFriendListFull, friend()),
        vec![line("Lucy's Friend List is full.")]
    );
}

#[test]
fn friends_are_listed_asked_for_and_removed() {
    assert_eq!(
        handle(MapServerPacket::FriendListPacket { friend_list: vec![friend()] }),
        one(GameplayEvent::SetFriendList { friend_list: vec![friend()] })
    );
    assert_eq!(
        handle(MapServerPacket::FriendRequestPacket { requestee: friend() }),
        one(GameplayEvent::FriendRequest { requestee: friend() })
    );
    assert_eq!(
        handle(MapServerPacket::NotifyFriendRemovedPacket { account_id: AccountId(1), character_id: CharacterId(2) }),
        one(GameplayEvent::FriendRemoved { account_id: AccountId(1), character_id: CharacterId(2) })
    );
}

#[test]
fn shops_open_with_offers_that_never_run_out() {
    let listing = ShopItemInformation {
        item_id: ItemId(501),
        item_type: 0,
        price: Price(50),
        discount_price: Price(45),
        location: 3,
        view_id: 0,
    };
    let offer = ShopItem {
        metadata: NoMetadata,
        item_id: ItemId(501),
        item_type: 0,
        price: Price(50),
        quantity: ItemQuantity::Infinite,
        weight: 0,
        location: 3,
    };
    assert_eq!(
        handle(MapServerPacket::BuyOrSellPacket { shop_id: ShopId(11) }),
        one(GameplayEvent::AskBuyOrSell { shop_id: ShopId(11) })
    );
    assert_eq!(
        handle(MapServerPacket::ShopItemListPacket { items: vec![listing, listing] }),
        one(GameplayEvent::OpenShop { items: vec![offer, offer] })
    );
    assert_eq!(shop_items(vec![]), vec![]);
    assert_eq!(
        handle(MapServerPacket::BuyShopItemsResultPacket { result: BuyShopItemsResult::Success }),
        one(GameplayEvent::BuyingCompleted { result: BuyShopItemsResult::Success })
    );
    let sellable = SellItemInformation { inventory_index: InventoryIndex(1), price: Price(10), overcharge_price: Price(12) };
    assert_eq!(
        handle(MapServerPacket::SellListPacket { items: vec![sellable] }),
        one(GameplayEvent::SellItemList { items: vec![sellable] })
    );
    assert_eq!(
        handle(MapServerPacket::SellItemsResultPacket { result: SellItemsResult::Error }),
        one(GameplayEvent::SellingCompleted { result: SellItemsResult::Error })
    );
}

#[test]
fn a_packet_of_which_only_the_type_is_read_yields_nothing() {
    assert_eq!(handle(MapServerPacket::Other(PacketKind::QuestListPacket)), HandlerOutput::Nothing);
    assert_eq!(handle(MapServerPacket::Other(PacketKind::DisplayEmotionPacket)), HandlerOutput::Nothing);
    assert_eq!(MapServerPacket::Other(PacketKind::QuestListPacket).kind(), PacketKind::QuestListPacket);
    assert_eq!(MapServerPacket::InventoyStartPacket.kind(), PacketKind::InventoyStartPacket);
    assert_eq!(
        MapServerPacket::DamagePacket3(damage(1, DamageType::Damage)).kind(),
        PacketKind::DamagePacket3
    );
}

#[test]
fn occurrences_are_replaced_from_left_to_right_without_overlap() {
    assert_eq!(replace("prontera.gat", ".gat", ""), "prontera");
    assert_eq!(replace("", ".gat", ""), "");
    assert_eq!(replace(".gat", ".gat", ""), "");
    assert_eq!(replace(".ga", ".gat", ""), ".ga");
    assert_eq!(replace("gat.gat.", ".gat", "-"), "gat-.");
    assert_eq!(replace("aaa", "aa", "b"), "ba");
    assert_eq!(replace("aaaa", "aa", "b"), "bb");
    assert_eq!(replace("abab", "ab", "abab"), "abababab");
    assert_eq!(replace("a-b-c", "-", ""), "abc");
    assert_eq!(replace("grüße", "ü", "ue"), "grueße");
    assert_eq!(replace("один.gat", ".gat", ".rsw"), "один.rsw");
    for (text, pattern, replacement) in [
        ("mississippi", "ss", "S"),
        ("mississippi", "issi", "_"),
        ("mississippi", "i", ""),
        ("mississippi", "mississippi", "x"),
        ("mississippi", "mississippis", "x"),
        ("..gat.gat", ".gat", "!"),
    ] {
        assert_eq!(replace(text, pattern, replacement), text.replace(pattern, replacement));
    }
}

#[test]
fn an_empty_pattern_occurs_nowhere() {
    assert_eq!(replace("prontera", "", "x"), "prontera");
    assert_eq!(replace("", "", "x"), "");
}
