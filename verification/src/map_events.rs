//! What the packets of the map server become.

use vstd::prelude::*;
use vstd::string::*;

use crate::clock::now;
use crate::entity::EntityData;
use crate::event::{GameplayEvent, HandlerOutput, HotkeyState, MessageColor};
use crate::inventory::{reassembly_step, InventoryAccumulator, ReassemblyStep};
use crate::items::{
    equippable_item, regular_item, shop_item, InventoryItem, InventoryItemDetails, NoMetadata, ShopItem,
};
use crate::map::{Damage, ItemPickup, MapServerPacket};
use crate::text::{join3, nonempty_parts, replace, replaced, split_nonempty, texts};
use crate::wire::{
    ColorRGBA, DamageType, DisconnectResponseStatus, EntityId, EquipPosition, EquippableItemFlags,
    EquippableItemInformation, Friend, FriendRequestResult, HotkeyData, QuestEffect, RegularItemFlags,
    RegularItemInformation, RequestEquipItemStatus, RequestUnequipItemStatus, RestartResponseStatus,
    ShopItemInformation, SpriteChangeType, VisualEffect,
};

verus! {

/// The colour of a chat line that brings its own. The alpha channel is
/// dropped, because it may be 0.
pub open spec fn line_color(color: ColorRGBA) -> MessageColor {
    MessageColor::Rgb { red: color.red, green: color.green, blue: color.blue }
}

/// The file that holds each visual effect.
pub open spec fn visual_effect_file(effect: VisualEffect) -> &'static str {
    match effect {
        VisualEffect::BaseLevelUp => "angel.str",
        VisualEffect::JobLevelUp => "joblvup.str",
        VisualEffect::RefineFailure => "bs_refinefailed.str",
        VisualEffect::RefineSuccess => "bs_refinesuccess.str",
        VisualEffect::GameOver => "help_angel\\help_angel\\help_angel.str",
        VisualEffect::PharmacySuccess => "p_success.str",
        VisualEffect::PharmacyFailure => "p_failed.str",
        VisualEffect::BaseLevelUpSuperNovice => "help_angel\\help_angel\\help_angel.str",
        VisualEffect::JobLevelUpSuperNovice => "help_angel\\help_angel\\help_angel.str",
        VisualEffect::BaseLevelUpTaekwon => "help_angel\\help_angel\\help_angel.str",
    }
}

/// Returns the file that holds a visual effect.
pub fn visual_effect_path(effect: VisualEffect) -> (path: &'static str)
    ensures
        path == visual_effect_file(effect),
{
    match effect {
        VisualEffect::BaseLevelUp => "angel.str",
        VisualEffect::JobLevelUp => "joblvup.str",
        VisualEffect::RefineFailure => "bs_refinefailed.str",
        VisualEffect::RefineSuccess => "bs_refinesuccess.str",
        VisualEffect::GameOver => "help_angel\\help_angel\\help_angel.str",
        VisualEffect::PharmacySuccess => "p_success.str",
        VisualEffect::PharmacyFailure => "p_failed.str",
        VisualEffect::BaseLevelUpSuperNovice => "help_angel\\help_angel\\help_angel.str",
        VisualEffect::JobLevelUpSuperNovice => "help_angel\\help_angel\\help_angel.str",
        VisualEffect::BaseLevelUpTaekwon => "help_angel\\help_angel\\help_angel.str",
    }
}

/// The damage to show for an amount from the wire: none unless it is
/// positive.
pub open spec fn shown_damage(damage_amount: i32) -> Option<usize> {
    if damage_amount > 0 {
        Some(damage_amount as usize)
    } else {
        None
    }
}

/// The event that an action of one entity on another becomes, if it becomes
/// one: a hit, critical or not, or the player standing up.
pub open spec fn damage_event(damage: Damage) -> Option<GameplayEvent> {
    match damage.damage_type {
        DamageType::Damage => Some(
            GameplayEvent::DamageEffect {
                source_entity_id: damage.source_entity_id,
                destination_entity_id: damage.destination_entity_id,
                damage_amount: shown_damage(damage.damage_amount),
                attack_duration: damage.attack_duration,
                is_critical: false,
            },
        ),
        DamageType::CriticalHit => Some(
            GameplayEvent::DamageEffect {
                source_entity_id: damage.source_entity_id,
                destination_entity_id: damage.destination_entity_id,
                damage_amount: shown_damage(damage.damage_amount),
                attack_duration: damage.attack_duration,
                is_critical: true,
            },
        ),
        DamageType::StandUp => Some(GameplayEvent::PlayerStandUp { entity_id: damage.destination_entity_id }),
        _ => None,
    }
}

/// Translates an action of one entity on another.
pub fn translate_damage(damage: Damage) -> (event: Option<GameplayEvent>)
    ensures
        event == damage_event(damage),
{
    let damage_amount = if damage.damage_amount > 0 {
        Some(damage.damage_amount as usize)
    } else {
        None
    };

    match damage.damage_type {
        DamageType::Damage => Some(
            GameplayEvent::DamageEffect {
                source_entity_id: damage.source_entity_id,
                destination_entity_id: damage.destination_entity_id,
                damage_amount,
                attack_duration: damage.attack_duration,
                is_critical: false,
            },
        ),
        DamageType::CriticalHit => Some(
            GameplayEvent::DamageEffect {
                source_entity_id: damage.source_entity_id,
                destination_entity_id: damage.destination_entity_id,
                damage_amount,
                attack_duration: damage.attack_duration,
                is_critical: true,
            },
        ),
        DamageType::StandUp => Some(GameplayEvent::PlayerStandUp { entity_id: damage.destination_entity_id }),
        _ => None,
    }
}

/// The inventory item that a picked-up item is. An item without a place to
/// wear it stacks; any other is wearable and not yet worn.
pub open spec fn picked_up_item(pickup: ItemPickup) -> InventoryItem<NoMetadata> {
    InventoryItem {
        metadata: NoMetadata,
        index: pickup.index,
        item_id: pickup.item_id,
        item_type: pickup.item_type,
        slot: pickup.cards,
        hire_expiration_date: pickup.hire_expiration_date,
        details: if pickup.equip_position.spec_is_empty() {
            InventoryItemDetails::Regular {
                amount: pickup.count,
                equipped_position: pickup.equip_position,
                flags: RegularItemFlags { identified: pickup.is_identified != 0, in_etc_tab: false },
            }
        } else {
            InventoryItemDetails::Equippable {
                equip_position: pickup.equip_position,
                equipped_position: EquipPosition { bits: 0 },
                bind_on_equip_type: pickup.bind_on_equip_type,
                w_item_sprite_number: 0,
                option_count: 5,
                option_data: pickup.option_data,
                refinement_level: pickup.refinement_level,
                enchantment_level: pickup.enchantment_level,
                flags: EquippableItemFlags {
                    identified: pickup.is_identified != 0,
                    is_broken: pickup.is_broken != 0,
                    in_etc_tab: false,
                },
            }
        },
    }
}

/// Translates an item that was picked up.
pub fn translate_item_pickup(pickup: ItemPickup) -> (item: InventoryItem<NoMetadata>)
    ensures
        item == picked_up_item(pickup),
{
    let ItemPickup {
        index,
        count,
        item_id,
        is_identified,
        is_broken,
        cards,
        equip_position,
        item_type,
        result: _,
        hire_expiration_date,
        bind_on_equip_type,
        option_data,
        favorite: _,
        look: _,
        refinement_level,
        enchantment_level,
    } = pickup;

    let details = if equip_position.is_empty() {
        InventoryItemDetails::Regular {
            amount: count,
            equipped_position: equip_position,
            flags: RegularItemFlags { identified: is_identified != 0, in_etc_tab: false },
        }
    } else {
        InventoryItemDetails::Equippable {
            equip_position,
            equipped_position: EquipPosition::empty(),
            bind_on_equip_type,
            w_item_sprite_number: 0,
            option_count: option_data.len() as u8,
            option_data,
            refinement_level,
            enchantment_level,
            flags: EquippableItemFlags {
                identified: is_identified != 0,
                is_broken: is_broken != 0,
                in_etc_tab: false,
            },
        }
    };

    InventoryItem {
        metadata: NoMetadata,
        index,
        item_id,
        item_type,
        slot: cards,
        hire_expiration_date,
        details,
    }
}

/// The states of the hotbar slots that wire data stands for.
pub fn hotkey_states(hotkeys: Vec<HotkeyData>) -> (states: Vec<HotkeyState>)
    ensures
        states@ == hotkeys@.map_values(|data: HotkeyData| HotkeyState::of(data)),
{
    let ghost wanted = hotkeys@.map_values(|data: HotkeyData| HotkeyState::of(data));
    let mut states: Vec<HotkeyState> = Vec::new();
    let mut position: usize = 0;
    while position < hotkeys.len()
        invariant
            position <= hotkeys.len(),
            wanted == hotkeys@.map_values(|data: HotkeyData| HotkeyState::of(data)),
            states@ == wanted.take(position as int),
        decreases hotkeys.len() - position,
    {
        states.push(HotkeyState::from_data(hotkeys[position]));
        assert(wanted.take(position + 1) =~= wanted.take(position as int).push(wanted[position as int]));
        position += 1;
    }
    assert(wanted.take(position as int) =~= wanted);
    states
}

/// The offers of a shop as shop items.
pub fn shop_items(listing: Vec<ShopItemInformation>) -> (items: Vec<ShopItem<NoMetadata>>)
    ensures
        items@ == listing@.map_values(|information: ShopItemInformation| shop_item(information)),
{
    let ghost wanted = listing@.map_values(|information: ShopItemInformation| shop_item(information));
    let mut items: Vec<ShopItem<NoMetadata>> = Vec::new();
    let mut position: usize = 0;
    while position < listing.len()
        invariant
            position <= listing.len(),
            wanted == listing@.map_values(|information: ShopItemInformation| shop_item(information)),
            items@ == wanted.take(position as int),
        decreases listing.len() - position,
    {
        items.push(ShopItem::from_listing(listing[position]));
        assert(wanted.take(position + 1) =~= wanted.take(position as int).push(wanted[position as int]));
        position += 1;
    }
    assert(wanted.take(position as int) =~= wanted);
    items
}

/// The line that tells how a friend request ended.
pub open spec fn friend_request_line(result: FriendRequestResult, name: Seq<char>) -> Seq<char> {
    match result {
        FriendRequestResult::Accepted => "You have become friends with "@ + name + "."@,
        FriendRequestResult::Rejected => ""@ + name + " does not want to be friends with you."@,
        FriendRequestResult::OwnFriendListFull => "Your Friend List is full."@,
        FriendRequestResult::OtherFriendListFull => ""@ + name + "'s Friend List is full."@,
    }
}

/// Whether `events` is what the end of a friend request becomes: the line
/// that tells of it, and the new friend if the request was accepted.
pub open spec fn friend_request_events(result: FriendRequestResult, friend: Friend, events: Seq<GameplayEvent>) -> bool {
    &&& events.len() == if result == FriendRequestResult::Accepted {
        2nat
    } else {
        1nat
    }
    &&& events[0] matches GameplayEvent::ChatMessage { text, color } && text@ == friend_request_line(
        result,
        friend.name@,
    ) && color == MessageColor::Information
    &&& result == FriendRequestResult::Accepted ==> events[1] == GameplayEvent::FriendAdded { friend }
}

/// Translates the end of a friend request.
pub fn translate_friend_request_result(result: FriendRequestResult, friend: Friend) -> (events: Vec<GameplayEvent>)
    ensures
        friend_request_events(result, friend, events@),
{
    let text = match result {
        FriendRequestResult::Accepted => join3("You have become friends with ", friend.name.as_str(), "."),
        FriendRequestResult::Rejected => join3("", friend.name.as_str(), " does not want to be friends with you."),
        FriendRequestResult::OwnFriendListFull => String::from_str("Your Friend List is full."),
        FriendRequestResult::OtherFriendListFull => join3("", friend.name.as_str(), "'s Friend List is full."),
    };

    let mut events = Vec::new();
    events.push(GameplayEvent::ChatMessage { text, color: MessageColor::Information });

    if let FriendRequestResult::Accepted = result {
        events.push(GameplayEvent::FriendAdded { friend });
    }

    events
}

/// Whether `output` is one chat line of the given text and colour.
pub open spec fn is_chat_line(output: HandlerOutput, line: Seq<char>, shade: MessageColor) -> bool {
    output matches HandlerOutput::One(GameplayEvent::ChatMessage { text, color }) && text@ == line && color
        == shade
}

/// The step of an inventory sequence that a packet is, if it is one.
pub open spec fn inventory_step(packet: MapServerPacket) -> Option<ReassemblyStep<InventoryItem<NoMetadata>>> {
    match packet {
        MapServerPacket::InventoyStartPacket => Some(ReassemblyStep::Start),
        MapServerPacket::RegularItemListPacket { item_information } => Some(
            ReassemblyStep::Items(item_information@.map_values(|i: RegularItemInformation| regular_item(i))),
        ),
        MapServerPacket::EquippableItemListPacket { item_information } => Some(
            ReassemblyStep::Items(item_information@.map_values(|i: EquippableItemInformation| equippable_item(i))),
        ),
        MapServerPacket::InventoyEndPacket => Some(ReassemblyStep::End),
        _ => None,
    }
}

/// The accumulator of the inventory after a packet. Only the packets of an
/// inventory sequence touch it.
pub open spec fn map_server_inventory(
    packet: MapServerPacket,
    inventory: Option<Seq<InventoryItem<NoMetadata>>>,
) -> Option<Seq<InventoryItem<NoMetadata>>> {
    match inventory_step(packet) {
        Some(step) => reassembly_step(inventory, step).0,
        None => inventory,
    }
}

/// Whether `events` is one event that sets the inventory to `items`.
pub open spec fn sets_inventory(events: Seq<GameplayEvent>, items: Seq<InventoryItem<NoMetadata>>) -> bool {
    events.len() == 1 && (events[0] matches GameplayEvent::SetInventory { items: set } && set@ == items)
}

/// The packets of an inventory sequence do what the steps of the sequence
/// say: the packet that completes an inventory yields exactly one event, which
/// sets the inventory to what was collected, and every other yields nothing.
pub proof fn lemma_inventory_packets_follow_the_sequence(
    packet: MapServerPacket,
    inventory: Option<Seq<InventoryItem<NoMetadata>>>,
    received_at: std::time::Instant,
    output: HandlerOutput,
)
    requires
        inventory_step(packet) is Some,
        map_server_outcome(packet, inventory, received_at, output),
    ensures
        map_server_inventory(packet, inventory) == reassembly_step(inventory, inventory_step(packet)->0).0,
        match reassembly_step(inventory, inventory_step(packet)->0).1 {
            Some(items) => sets_inventory(output@, items),
            None => output@ == Seq::<GameplayEvent>::empty(),
        },
{
}

/// An item list that arrives outside an inventory sequence yields no event,
/// and starts no sequence.
pub proof fn lemma_item_list_without_start_yields_nothing(
    packet: MapServerPacket,
    received_at: std::time::Instant,
    output: HandlerOutput,
)
    requires
        packet is RegularItemListPacket || packet is EquippableItemListPacket,
        map_server_outcome(packet, None, received_at, output),
    ensures
        output@ == Seq::<GameplayEvent>::empty(),
        map_server_inventory(packet, None) is None,
{
}

/// The inventory is set by nothing but the end of a sequence that had
/// started.
pub proof fn lemma_inventory_is_set_at_the_end_only(
    packet: MapServerPacket,
    inventory: Option<Seq<InventoryItem<NoMetadata>>>,
    received_at: std::time::Instant,
    output: HandlerOutput,
    index: int,
)
    requires
        packet.spec_is_supported(),
        map_server_outcome(packet, inventory, received_at, output),
        0 <= index < output@.len(),
        output@[index] is SetInventory,
    ensures
        packet is InventoyEndPacket,
        inventory is Some,
        sets_inventory(output@, inventory->0),
{
    if packet is FriendRequestResultPacket {
        assert(output@[0] is ChatMessage);
        assert(index == 1 ==> output@[1] is FriendAdded);
    }
}

/// Whether `output` is what a packet of the map server becomes, given the
/// accumulator of the inventory before the packet and the time at which the
/// packet was received.
pub open spec fn map_server_outcome(
    packet: MapServerPacket,
    inventory: Option<Seq<InventoryItem<NoMetadata>>>,
    received_at: std::time::Instant,
    output: HandlerOutput,
) -> bool {
    match packet {
        MapServerPacket::MapServerPingPacket => output == HandlerOutput::Nothing,
        MapServerPacket::BroadcastMessagePacket { message } => output == HandlerOutput::One(
            GameplayEvent::ChatMessage { text: message, color: MessageColor::Broadcast },
        ),
        MapServerPacket::Broadcast2MessagePacket { message, font_color } => output == HandlerOutput::One(
            GameplayEvent::ChatMessage { text: message, color: line_color(font_color) },
        ),
        MapServerPacket::OverheadMessagePacket { message } => output == HandlerOutput::One(
            GameplayEvent::ChatMessage { text: message, color: MessageColor::Broadcast },
        ),
        MapServerPacket::ServerMessagePacket { message } => output == HandlerOutput::One(
            GameplayEvent::ChatMessage { text: message, color: MessageColor::Server },
        ),
        MapServerPacket::EntityMessagePacket { message, color } => output == HandlerOutput::One(
            GameplayEvent::ChatMessage { text: message, color: line_color(color) },
        ),
        MapServerPacket::EntityMovePacket { entity_id, origin, destination, starting_timestamp } => output
            == HandlerOutput::One(GameplayEvent::EntityMove { entity_id, origin, destination, starting_timestamp }),
        MapServerPacket::PlayerMovePacket { starting_timestamp, origin, destination } => output
            == HandlerOutput::One(GameplayEvent::PlayerMove { origin, destination, starting_timestamp }),
        MapServerPacket::ChangeMapPacket { map_name, position } => {
            output matches HandlerOutput::One(GameplayEvent::ChangeMap { map_name: name, position: place })
                && name@ == replaced(map_name@, ".gat"@, ""@) && place == position
        },
        MapServerPacket::ResurrectionPacket { entity_id } => output == HandlerOutput::One(
            GameplayEvent::ResurrectPlayer { entity_id },
        ),
        MapServerPacket::EntityAppearedPacket { appearance, position } => output == HandlerOutput::One(
            GameplayEvent::AddEntity { entity_data: EntityData::appeared(appearance, position, None) },
        ),
        MapServerPacket::EntityAppeared2Packet { appearance, position } => output == HandlerOutput::One(
            GameplayEvent::AddEntity { entity_data: EntityData::appeared(appearance, position, None) },
        ),
        MapServerPacket::MovingEntityAppearedPacket { appearance, origin, destination } => output
            == HandlerOutput::One(
            GameplayEvent::AddEntity { entity_data: EntityData::appeared(appearance, origin, Some(destination)) },
        ),
        MapServerPacket::EntityDisappearedPacket { entity_id, reason } => output == HandlerOutput::One(
            GameplayEvent::RemoveEntity { entity_id, reason },
        ),
        MapServerPacket::UpdateStatPacket { stat_type } => output == HandlerOutput::One(
            GameplayEvent::UpdateStat { stat_type },
        ),
        MapServerPacket::UpdateStatPacket1 { stat_type } => output == HandlerOutput::One(
            GameplayEvent::UpdateStat { stat_type },
        ),
        MapServerPacket::UpdateStatPacket2 { stat_type } => output == HandlerOutput::One(
            GameplayEvent::UpdateStat { stat_type },
        ),
        MapServerPacket::UpdateStatPacket3 { stat_type } => output == HandlerOutput::One(
            GameplayEvent::UpdateStat { stat_type },
        ),
        MapServerPacket::SpriteChangePacket { account_id, sprite_type, value } => output == match sprite_type {
            SpriteChangeType::Base => HandlerOutput::One(GameplayEvent::ChangeJob { account_id, job_id: value }),
            SpriteChangeType::Hair => HandlerOutput::One(GameplayEvent::ChangeHair { account_id, hair_id: value }),
            _ => HandlerOutput::Nothing,
        },
        MapServerPacket::InventoyStartPacket => output == HandlerOutput::Nothing,
        MapServerPacket::RegularItemListPacket { .. } => output == HandlerOutput::Nothing,
        MapServerPacket::EquippableItemListPacket { .. } => output == HandlerOutput::Nothing,
        MapServerPacket::InventoyEndPacket => match reassembly_step(inventory, ReassemblyStep::End).1 {
            Some(collected) => output matches HandlerOutput::One(GameplayEvent::SetInventory { items })
                && items@ == collected,
            None => output == HandlerOutput::Nothing,
        },
        MapServerPacket::UpdateSkillTreePacket { skill_information } => output == HandlerOutput::One(
            GameplayEvent::SkillTree { skill_information },
        ),
        MapServerPacket::UpdateHotkeysPacket { tab, hotkeys } => {
            output matches HandlerOutput::One(GameplayEvent::SetHotkeyData { tab: shown, hotkeys: states })
                && shown == tab && states@ == hotkeys@.map_values(|data: HotkeyData| HotkeyState::of(data))
        },
        MapServerPacket::InitialStatsPacket {
            strength_stat_points_cost,
            agility_stat_points_cost,
            vitality_stat_points_cost,
            intelligence_stat_points_cost,
            dexterity_stat_points_cost,
            luck_stat_points_cost,
        } => output == HandlerOutput::One(
            GameplayEvent::InitialStats {
                strength_stat_points_cost,
                agility_stat_points_cost,
                vitality_stat_points_cost,
                intelligence_stat_points_cost,
                dexterity_stat_points_cost,
                luck_stat_points_cost,
            },
        ),
        MapServerPacket::NextButtonPacket { npc_id } => output == HandlerOutput::One(
            GameplayEvent::AddNextButton { npc_id },
        ),
        MapServerPacket::CloseButtonPacket { npc_id } => output == HandlerOutput::One(
            GameplayEvent::AddCloseButton { npc_id },
        ),
        MapServerPacket::DialogMenuPacket { npc_id, message } => {
            output matches HandlerOutput::One(GameplayEvent::AddChoiceButtons { choices, npc_id: speaker })
                && texts(choices@) == nonempty_parts(message@, ':') && speaker == npc_id
        },
        MapServerPacket::DisplaySkillEffectNoDamagePacket { destination_entity_id, heal_amount } => output
            == HandlerOutput::One(
            GameplayEvent::HealEffect { entity_id: destination_entity_id, heal_amount: heal_amount as usize },
        ),
        MapServerPacket::VisualEffectPacket { entity_id, effect } => output == HandlerOutput::One(
            GameplayEvent::VisualEffect { effect_path: visual_effect_file(effect), entity_id },
        ),
        MapServerPacket::QuestEffectPacket(quest_effect) => output == HandlerOutput::One(
            match quest_effect.effect {
                QuestEffect::NoEffect => GameplayEvent::RemoveQuestEffect { entity_id: quest_effect.entity_id },
                _ => GameplayEvent::AddQuestEffect { quest_effect },
            },
        ),
        MapServerPacket::ItemPickupPacket(pickup) => output == HandlerOutput::One(
            GameplayEvent::IventoryItemAdded { item: picked_up_item(pickup) },
        ),
        MapServerPacket::RemoveItemFromInventoryPacket { remove_reason, index, amount } => output
            == HandlerOutput::One(GameplayEvent::InventoryItemRemoved { reason: remove_reason, index, amount }),
        MapServerPacket::ServerTickPacket { client_tick } => output == HandlerOutput::One(
            GameplayEvent::UpdateClientTick { client_tick, received_at },
        ),
        MapServerPacket::RequestPlayerDetailsSuccessPacket { character_id, name } => output == HandlerOutput::One(
            GameplayEvent::UpdateEntityDetails { entity_id: EntityId(character_id.0), name },
        ),
        MapServerPacket::RequestEntityDetailsSuccessPacket { entity_id, name } => output == HandlerOutput::One(
            GameplayEvent::UpdateEntityDetails { entity_id, name },
        ),
        MapServerPacket::UpdateEntityHealthPointsPacket { entity_id, health_points, maximum_health_points } => output
            == HandlerOutput::One(
            GameplayEvent::UpdateEntityHealth {
                entity_id,
                health_points: health_points as usize,
                maximum_health_points: maximum_health_points as usize,
            },
        ),
        MapServerPacket::RequestPlayerAttackFailedPacket {
            target_entity_id,
            target_position,
            player_position,
            attack_range,
        } => output == HandlerOutput::One(
            GameplayEvent::AttackFailed { target_entity_id, target_position, player_position, attack_range },
        ),
        MapServerPacket::DamagePacket1(damage) => output == match damage_event(damage) {
            Some(event) => HandlerOutput::One(event),
            None => HandlerOutput::Nothing,
        },
        MapServerPacket::DamagePacket3(damage) => output == match damage_event(damage) {
            Some(event) => HandlerOutput::One(event),
            None => HandlerOutput::Nothing,
        },
        MapServerPacket::NpcDialogPacket { npc_id, text } => output == HandlerOutput::One(
            GameplayEvent::OpenDialog { text, npc_id },
        ),
        MapServerPacket::RequestEquipItemStatusPacket { inventory_index, equipped_position, result } => output
            == match result {
            RequestEquipItemStatus::Success => HandlerOutput::One(
                GameplayEvent::UpdateEquippedPosition { index: inventory_index, equipped_position },
            ),
            _ => HandlerOutput::Nothing,
        },
        MapServerPacket::RequestUnequipItemStatusPacket { inventory_index, result } => output == match result {
            RequestUnequipItemStatus::Success => HandlerOutput::One(
                GameplayEvent::UpdateEquippedPosition {
                    index: inventory_index,
                    equipped_position: EquipPosition { bits: 0 },
                },
            ),
            _ => HandlerOutput::Nothing,
        },
        MapServerPacket::MapServerLoginSuccessPacket { client_tick } => output == HandlerOutput::One(
            GameplayEvent::UpdateClientTick { client_tick, received_at },
        ),
        MapServerPacket::RestartResponsePacket { result } => match result {
            RestartResponseStatus::Accepted => output == HandlerOutput::One(GameplayEvent::LoggedOut),
            RestartResponseStatus::Nothing => is_chat_line(output, "Failed to log out."@, MessageColor::Error),
        },
        MapServerPacket::DisconnectResponsePacket { result } => match result {
            DisconnectResponseStatus::Accepted => output == HandlerOutput::One(GameplayEvent::LoggedOut),
            DisconnectResponseStatus::Wait10Seconds => is_chat_line(
                output,
                "Please wait 10 seconds before trying to log out."@,
                MessageColor::Error,
            ),
        },
        MapServerPacket::NotifySkillUnitPacket { entity_id, position, unit_id } => output == HandlerOutput::One(
            GameplayEvent::AddSkillUnit { entity_id, unit_id, position },
        ),
        MapServerPacket::SkillUnitDisappearPacket { entity_id } => output == HandlerOutput::One(
            GameplayEvent::RemoveSkillUnit { entity_id },
        ),
        MapServerPacket::FriendListPacket { friend_list } => output == HandlerOutput::One(
            GameplayEvent::SetFriendList { friend_list },
        ),
        MapServerPacket::FriendRequestPacket { requestee } => output == HandlerOutput::One(
            GameplayEvent::FriendRequest { requestee },
        ),
        MapServerPacket::FriendRequestResultPacket { result, friend } => {
            output matches HandlerOutput::Many(events) && friend_request_events(result, friend, events@)
        },
        MapServerPacket::NotifyFriendRemovedPacket { account_id, character_id } => output == HandlerOutput::One(
            GameplayEvent::FriendRemoved { account_id, character_id },
        ),
        MapServerPacket::BuyOrSellPacket { shop_id } => output == HandlerOutput::One(
            GameplayEvent::AskBuyOrSell { shop_id },
        ),
        MapServerPacket::ShopItemListPacket { items } => {
            output matches HandlerOutput::One(GameplayEvent::OpenShop { items: offers }) && offers@
                == items@.map_values(|information: ShopItemInformation| shop_item(information))
        },
        MapServerPacket::BuyShopItemsResultPacket { result } => output == HandlerOutput::One(
            GameplayEvent::BuyingCompleted { result },
        ),
        MapServerPacket::SellListPacket { items } => output == HandlerOutput::One(
            GameplayEvent::SellItemList { items },
        ),
        MapServerPacket::SellItemsResultPacket { result } => output == HandlerOutput::One(
            GameplayEvent::SellingCompleted { result },
        ),
        MapServerPacket::Other(_) => output == HandlerOutput::Nothing,
    }
}

/// Translates a packet of the map server that was received at `received_at`,
/// and keeps the accumulator of the inventory up to date.
///
/// A packet of an inventory sequence that arrives out of step yields nothing:
/// items and an end without a start are dropped, and a start inside a
/// sequence begins anew.
pub fn translate_map_server_packet(
    packet: MapServerPacket,
    inventory: &mut InventoryAccumulator,
    received_at: std::time::Instant,
) -> (output: HandlerOutput)
    requires
        packet.is_supported(),
    ensures
        map_server_outcome(packet, old(inventory)@, received_at, output),
        final(inventory)@ == map_server_inventory(packet, old(inventory)@),
{
    match packet {
        MapServerPacket::MapServerPingPacket => HandlerOutput::Nothing,
        MapServerPacket::BroadcastMessagePacket { message } => HandlerOutput::One(
            GameplayEvent::ChatMessage { text: message, color: MessageColor::Broadcast },
        ),
        MapServerPacket::Broadcast2MessagePacket { message, font_color } => {
            // Drop the alpha channel because it might be 0.
            let color = MessageColor::Rgb { red: font_color.red, green: font_color.green, blue: font_color.blue };

            HandlerOutput::One(GameplayEvent::ChatMessage { text: message, color })
        },
        MapServerPacket::OverheadMessagePacket { message } => {
            // An overhead message has no event of its own: it is shown as a broadcast.
            HandlerOutput::One(GameplayEvent::ChatMessage { text: message, color: MessageColor::Broadcast })
        },
        MapServerPacket::ServerMessagePacket { message } => HandlerOutput::One(
            GameplayEvent::ChatMessage { text: message, color: MessageColor::Server },
        ),
        MapServerPacket::EntityMessagePacket { message, color } => {
            // Drop the alpha channel because it might be 0.
            let color = MessageColor::Rgb { red: color.red, green: color.green, blue: color.blue };

            HandlerOutput::One(GameplayEvent::ChatMessage { text: message, color })
        },
        MapServerPacket::EntityMovePacket { entity_id, origin, destination, starting_timestamp } => {
            HandlerOutput::One(GameplayEvent::EntityMove { entity_id, origin, destination, starting_timestamp })
        },
        MapServerPacket::PlayerMovePacket { starting_timestamp, origin, destination } => HandlerOutput::One(
            GameplayEvent::PlayerMove { origin, destination, starting_timestamp },
        ),
        MapServerPacket::ChangeMapPacket { map_name, position } => {
            let map_name = replace(map_name.as_str(), ".gat", "");

            HandlerOutput::One(GameplayEvent::ChangeMap { map_name, position })
        },
        MapServerPacket::ResurrectionPacket { entity_id } => HandlerOutput::One(
            GameplayEvent::ResurrectPlayer { entity_id },
        ),
        MapServerPacket::EntityAppearedPacket { appearance, position } => HandlerOutput::One(
            GameplayEvent::AddEntity { entity_data: EntityData::from_appearance(appearance, position, None) },
        ),
        MapServerPacket::EntityAppeared2Packet { appearance, position } => HandlerOutput::One(
            GameplayEvent::AddEntity { entity_data: EntityData::from_appearance(appearance, position, None) },
        ),
        MapServerPacket::MovingEntityAppearedPacket { appearance, origin, destination } => HandlerOutput::One(
            GameplayEvent::AddEntity {
                entity_data: EntityData::from_appearance(appearance, origin, Some(destination)),
            },
        ),
        MapServerPacket::EntityDisappearedPacket { entity_id, reason } => HandlerOutput::One(
            GameplayEvent::RemoveEntity { entity_id, reason },
        ),
        MapServerPacket::UpdateStatPacket { stat_type } => HandlerOutput::One(
            GameplayEvent::UpdateStat { stat_type },
        ),
        MapServerPacket::UpdateStatPacket1 { stat_type } => HandlerOutput::One(
            GameplayEvent::UpdateStat { stat_type },
        ),
        MapServerPacket::UpdateStatPacket2 { stat_type } => HandlerOutput::One(
            GameplayEvent::UpdateStat { stat_type },
        ),
        MapServerPacket::UpdateStatPacket3 { stat_type } => HandlerOutput::One(
            GameplayEvent::UpdateStat { stat_type },
        ),
        MapServerPacket::SpriteChangePacket { account_id, sprite_type, value } => match sprite_type {
            SpriteChangeType::Base => HandlerOutput::One(GameplayEvent::ChangeJob { account_id, job_id: value }),
            SpriteChangeType::Hair => HandlerOutput::One(GameplayEvent::ChangeHair { account_id, hair_id: value }),
            _ => HandlerOutput::Nothing,
        },
        MapServerPacket::InventoyStartPacket => {
            let _ = inventory.start();
            HandlerOutput::Nothing
        },
        MapServerPacket::RegularItemListPacket { item_information } => {
            let _ = inventory.extend_regular(item_information);
            HandlerOutput::Nothing
        },
        MapServerPacket::EquippableItemListPacket { item_information } => {
            let _ = inventory.extend_equippable(item_information);
            HandlerOutput::Nothing
        },
        MapServerPacket::InventoyEndPacket => match inventory.finish() {
            Some(items) => HandlerOutput::One(GameplayEvent::SetInventory { items }),
            None => HandlerOutput::Nothing,
        },
        MapServerPacket::UpdateSkillTreePacket { skill_information } => HandlerOutput::One(
            GameplayEvent::SkillTree { skill_information },
        ),
        MapServerPacket::UpdateHotkeysPacket { tab, hotkeys } => HandlerOutput::One(
            GameplayEvent::SetHotkeyData { tab, hotkeys: hotkey_states(hotkeys) },
        ),
        MapServerPacket::InitialStatsPacket {
            strength_stat_points_cost,
            agility_stat_points_cost,
            vitality_stat_points_cost,
            intelligence_stat_points_cost,
            dexterity_stat_points_cost,
            luck_stat_points_cost,
        } => HandlerOutput::One(
            GameplayEvent::InitialStats {
                strength_stat_points_cost,
                agility_stat_points_cost,
                vitality_stat_points_cost,
                intelligence_stat_points_cost,
                dexterity_stat_points_cost,
                luck_stat_points_cost,
            },
        ),
        MapServerPacket::NextButtonPacket { npc_id } => HandlerOutput::One(GameplayEvent::AddNextButton { npc_id }),
        MapServerPacket::CloseButtonPacket { npc_id } => HandlerOutput::One(
            GameplayEvent::AddCloseButton { npc_id },
        ),
        MapServerPacket::DialogMenuPacket { npc_id, message } => {
            let choices = split_nonempty(message.as_str(), ':');

            HandlerOutput::One(GameplayEvent::AddChoiceButtons { choices, npc_id })
        },
        MapServerPacket::DisplaySkillEffectNoDamagePacket { destination_entity_id, heal_amount } => {
            HandlerOutput::One(
                GameplayEvent::HealEffect { entity_id: destination_entity_id, heal_amount: heal_amount as usize },
            )
        },
        MapServerPacket::VisualEffectPacket { entity_id, effect } => {
            let effect_path = visual_effect_path(effect);

            HandlerOutput::One(GameplayEvent::VisualEffect { effect_path, entity_id })
        },
        MapServerPacket::QuestEffectPacket(quest_effect) => match quest_effect.effect {
            QuestEffect::NoEffect => HandlerOutput::One(
                GameplayEvent::RemoveQuestEffect { entity_id: quest_effect.entity_id },
            ),
            _ => HandlerOutput::One(GameplayEvent::AddQuestEffect { quest_effect }),
        },
        MapServerPacket::ItemPickupPacket(pickup) => HandlerOutput::One(
            GameplayEvent::IventoryItemAdded { item: translate_item_pickup(pickup) },
        ),
        MapServerPacket::RemoveItemFromInventoryPacket { remove_reason, index, amount } => HandlerOutput::One(
            GameplayEvent::InventoryItemRemoved { reason: remove_reason, index, amount },
        ),
        MapServerPacket::ServerTickPacket { client_tick } => HandlerOutput::One(
            GameplayEvent::UpdateClientTick { client_tick, received_at },
        ),
        MapServerPacket::RequestPlayerDetailsSuccessPacket { character_id, name } => HandlerOutput::One(
            GameplayEvent::UpdateEntityDetails { entity_id: EntityId(character_id.0), name },
        ),
        MapServerPacket::RequestEntityDetailsSuccessPacket { entity_id, name } => HandlerOutput::One(
            GameplayEvent::UpdateEntityDetails { entity_id, name },
        ),
        MapServerPacket::UpdateEntityHealthPointsPacket { entity_id, health_points, maximum_health_points } => {
            HandlerOutput::One(
                GameplayEvent::UpdateEntityHealth {
                    entity_id,
                    health_points: health_points as usize,
                    maximum_health_points: maximum_health_points as usize,
                },
            )
        },
        MapServerPacket::RequestPlayerAttackFailedPacket {
            target_entity_id,
            target_position,
            player_position,
            attack_range,
        } => HandlerOutput::One(
            GameplayEvent::AttackFailed { target_entity_id, target_position, player_position, attack_range },
        ),
        MapServerPacket::DamagePacket1(damage) => HandlerOutput::from_option(translate_damage(damage)),
        MapServerPacket::DamagePacket3(damage) => HandlerOutput::from_option(translate_damage(damage)),
        MapServerPacket::NpcDialogPacket { npc_id, text } => HandlerOutput::One(
            GameplayEvent::OpenDialog { text, npc_id },
        ),
        MapServerPacket::RequestEquipItemStatusPacket { inventory_index, equipped_position, result } => match result {
            RequestEquipItemStatus::Success => HandlerOutput::One(
                GameplayEvent::UpdateEquippedPosition { index: inventory_index, equipped_position },
            ),
            _ => HandlerOutput::Nothing,
        },
        MapServerPacket::RequestUnequipItemStatusPacket { inventory_index, result } => match result {
            RequestUnequipItemStatus::Success => HandlerOutput::One(
                GameplayEvent::UpdateEquippedPosition {
                    index: inventory_index,
                    equipped_position: EquipPosition::empty(),
                },
            ),
            _ => HandlerOutput::Nothing,
        },
        MapServerPacket::MapServerLoginSuccessPacket { client_tick } => HandlerOutput::One(
            GameplayEvent::UpdateClientTick { client_tick, received_at },
        ),
        MapServerPacket::RestartResponsePacket { result } => match result {
            RestartResponseStatus::Accepted => HandlerOutput::One(GameplayEvent::LoggedOut),
            RestartResponseStatus::Nothing => HandlerOutput::One(
                GameplayEvent::ChatMessage {
                    text: String::from_str("Failed to log out."),
                    color: MessageColor::Error,
                },
            ),
        },
        MapServerPacket::DisconnectResponsePacket { result } => match result {
            DisconnectResponseStatus::Accepted => HandlerOutput::One(GameplayEvent::LoggedOut),
            DisconnectResponseStatus::Wait10Seconds => HandlerOutput::One(
                GameplayEvent::ChatMessage {
                    text: String::from_str("Please wait 10 seconds before trying to log out."),
                    color: MessageColor::Error,
                },
            ),
        },
        MapServerPacket::NotifySkillUnitPacket { entity_id, position, unit_id } => HandlerOutput::One(
            GameplayEvent::AddSkillUnit { entity_id, unit_id, position },
        ),
        MapServerPacket::SkillUnitDisappearPacket { entity_id } => HandlerOutput::One(
            GameplayEvent::RemoveSkillUnit { entity_id },
        ),
        MapServerPacket::FriendListPacket { friend_list } => HandlerOutput::One(
            GameplayEvent::SetFriendList { friend_list },
        ),
        MapServerPacket::FriendRequestPacket { requestee } => HandlerOutput::One(
            GameplayEvent::FriendRequest { requestee },
        ),
        MapServerPacket::FriendRequestResultPacket { result, friend } => HandlerOutput::Many(
            translate_friend_request_result(result, friend),
        ),
        MapServerPacket::NotifyFriendRemovedPacket { account_id, character_id } => HandlerOutput::One(
            GameplayEvent::FriendRemoved { account_id, character_id },
        ),
        MapServerPacket::BuyOrSellPacket { shop_id } => HandlerOutput::One(GameplayEvent::AskBuyOrSell { shop_id }),
        MapServerPacket::ShopItemListPacket { items } => HandlerOutput::One(
            GameplayEvent::OpenShop { items: shop_items(items) },
        ),
        MapServerPacket::BuyShopItemsResultPacket { result } => HandlerOutput::One(
            GameplayEvent::BuyingCompleted { result },
        ),
        MapServerPacket::SellListPacket { items } => HandlerOutput::One(GameplayEvent::SellItemList { items }),
        MapServerPacket::SellItemsResultPacket { result } => HandlerOutput::One(
            GameplayEvent::SellingCompleted { result },
        ),
        MapServerPacket::Other(_) => HandlerOutput::Nothing,
    }
}

/// Translates a packet of the map server that has just been received: the
/// packet is stamped with the current time.
pub fn handle_map_server_packet(packet: MapServerPacket, inventory: &mut InventoryAccumulator) -> (output:
    HandlerOutput)
    requires
        packet.is_supported(),
    ensures
        exists|received_at: std::time::Instant| map_server_outcome(packet, old(inventory)@, received_at, output),
        final(inventory)@ == map_server_inventory(packet, old(inventory)@),
{
    let received_at = now();
    translate_map_server_packet(packet, inventory, received_at)
}

} // verus!
