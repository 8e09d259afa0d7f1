//! The map server: its packets, and which of them the client handles.

use vstd::prelude::*;

use crate::entity::EntityAppearance;
use crate::registry::{
    either_wiring, lemma_next_group, lemma_nothing_registered, lemma_registered_with_one_more, lemma_same_wiring,
    phase_registered, registered_in_order, registered_next, DuplicateHandlerError, Handling, PacketHandlerRegistry,
    PacketKind,
};
use crate::wire::{
    AccountId, BuyShopItemsResult, CharacterId, ClientTick, ColorRGBA, DamageType, DisappearanceReason,
    DisconnectResponseStatus, EntityId, EquipPosition, EquippableItemInformation, Friend, FriendRequestResult,
    HotbarTab, HotkeyData, InventoryIndex, ItemId, ItemOptions, ItemPickupResult, QuestEffectPacket,
    RegularItemInformation, RemoveItemReason, RequestEquipItemStatus, RequestUnequipItemStatus,
    RestartResponseStatus, SellItemInformation, SellItemsResult, ShopId, ShopItemInformation, SkillInformation,
    SpriteChangeType, StatType, TilePosition, UnitId, VisualEffect, WorldPosition,
};

verus! {

/// An item that went into the inventory, or the reason why it did not.
#[derive(Debug, Clone, Copy, PartialEq, Eq)]
pub struct ItemPickup {
    pub index: InventoryIndex,
    pub count: u16,
    pub item_id: ItemId,
    pub is_identified: u8,
    pub is_broken: u8,
    pub cards: [u32; 4],
    pub equip_position: EquipPosition,
    pub item_type: u8,
    pub result: ItemPickupResult,
    pub hire_expiration_date: u32,
    pub bind_on_equip_type: u16,
    pub option_data: [ItemOptions; 5],
    pub favorite: u8,
    pub look: u16,
    pub refinement_level: u8,
    pub enchantment_level: u8,
}

/// One entity acting on another, most often by hitting it.
#[derive(Debug, Clone, Copy, PartialEq, Eq, Structural)]
pub struct Damage {
    pub source_entity_id: EntityId,
    pub destination_entity_id: EntityId,
    pub attack_duration: u32,
    pub damage_amount: i32,
    pub damage_type: DamageType,
}

/// A decoded packet of the map server, with the fields the client reads.
#[derive(Debug, PartialEq, Eq)]
pub enum MapServerPacket {
    MapServerPingPacket,
    BroadcastMessagePacket { message: String },
    Broadcast2MessagePacket { message: String, font_color: ColorRGBA },
    OverheadMessagePacket { message: String },
    ServerMessagePacket { message: String },
    EntityMessagePacket { message: String, color: ColorRGBA },
    EntityMovePacket { entity_id: EntityId, origin: WorldPosition, destination: WorldPosition, starting_timestamp: ClientTick },
    PlayerMovePacket { starting_timestamp: ClientTick, origin: WorldPosition, destination: WorldPosition },
    ChangeMapPacket { map_name: String, position: TilePosition },
    ResurrectionPacket { entity_id: EntityId },
    EntityAppearedPacket { appearance: EntityAppearance, position: WorldPosition },
    EntityAppeared2Packet { appearance: EntityAppearance, position: WorldPosition },
    MovingEntityAppearedPacket { appearance: EntityAppearance, origin: WorldPosition, destination: WorldPosition },
    EntityDisappearedPacket { entity_id: EntityId, reason: DisappearanceReason },
    UpdateStatPacket { stat_type: StatType },
    UpdateStatPacket1 { stat_type: StatType },
    UpdateStatPacket2 { stat_type: StatType },
    UpdateStatPacket3 { stat_type: StatType },
    SpriteChangePacket { account_id: AccountId, sprite_type: SpriteChangeType, value: u32 },
    InventoyStartPacket,
    RegularItemListPacket { item_information: Vec<RegularItemInformation> },
    EquippableItemListPacket { item_information: Vec<EquippableItemInformation> },
    InventoyEndPacket,
    UpdateSkillTreePacket { skill_information: Vec<SkillInformation> },
    UpdateHotkeysPacket { tab: HotbarTab, hotkeys: Vec<HotkeyData> },
    InitialStatsPacket {
        strength_stat_points_cost: u8,
        agility_stat_points_cost: u8,
        vitality_stat_points_cost: u8,
        intelligence_stat_points_cost: u8,
        dexterity_stat_points_cost: u8,
        luck_stat_points_cost: u8,
    },
    NextButtonPacket { npc_id: EntityId },
    CloseButtonPacket { npc_id: EntityId },
    DialogMenuPacket { npc_id: EntityId, message: String },
    DisplaySkillEffectNoDamagePacket { destination_entity_id: EntityId, heal_amount: u16 },
    VisualEffectPacket { entity_id: EntityId, effect: VisualEffect },
    QuestEffectPacket(QuestEffectPacket),
    ItemPickupPacket(ItemPickup),
    RemoveItemFromInventoryPacket { remove_reason: RemoveItemReason, index: InventoryIndex, amount: u16 },
    ServerTickPacket { client_tick: ClientTick },
    RequestPlayerDetailsSuccessPacket { character_id: CharacterId, name: String },
    RequestEntityDetailsSuccessPacket { entity_id: EntityId, name: String },
    UpdateEntityHealthPointsPacket { entity_id: EntityId, health_points: u32, maximum_health_points: u32 },
    RequestPlayerAttackFailedPacket {
        target_entity_id: EntityId,
        target_position: TilePosition,
        player_position: TilePosition,
        attack_range: u16,
    },
    DamagePacket1(Damage),
    DamagePacket3(Damage),
    NpcDialogPacket { npc_id: EntityId, text: String },
    RequestEquipItemStatusPacket { inventory_index: InventoryIndex, equipped_position: EquipPosition, result: RequestEquipItemStatus },
    RequestUnequipItemStatusPacket { inventory_index: InventoryIndex, result: RequestUnequipItemStatus },
    MapServerLoginSuccessPacket { client_tick: ClientTick },
    RestartResponsePacket { result: RestartResponseStatus },
    DisconnectResponsePacket { result: DisconnectResponseStatus },
    NotifySkillUnitPacket { entity_id: EntityId, position: TilePosition, unit_id: UnitId },
    SkillUnitDisappearPacket { entity_id: EntityId },
    FriendListPacket { friend_list: Vec<Friend> },
    FriendRequestPacket { requestee: Friend },
    FriendRequestResultPacket { result: FriendRequestResult, friend: Friend },
    NotifyFriendRemovedPacket { account_id: AccountId, character_id: CharacterId },
    BuyOrSellPacket { shop_id: ShopId },
    ShopItemListPacket { items: Vec<ShopItemInformation> },
    BuyShopItemsResultPacket { result: BuyShopItemsResult },
    SellListPacket { items: Vec<SellItemInformation> },
    SellItemsResultPacket { result: SellItemsResult },
    /// A packet of which the client reads nothing but its type.
    Other(PacketKind),
}

impl MapServerPacket {
    pub open spec fn spec_kind(&self) -> PacketKind {
        match self {
            MapServerPacket::MapServerPingPacket => PacketKind::MapServerPingPacket,
            MapServerPacket::BroadcastMessagePacket { .. } => PacketKind::BroadcastMessagePacket,
            MapServerPacket::Broadcast2MessagePacket { .. } => PacketKind::Broadcast2MessagePacket,
            MapServerPacket::OverheadMessagePacket { .. } => PacketKind::OverheadMessagePacket,
            MapServerPacket::ServerMessagePacket { .. } => PacketKind::ServerMessagePacket,
            MapServerPacket::EntityMessagePacket { .. } => PacketKind::EntityMessagePacket,
            MapServerPacket::EntityMovePacket { .. } => PacketKind::EntityMovePacket,
            MapServerPacket::PlayerMovePacket { .. } => PacketKind::PlayerMovePacket,
            MapServerPacket::ChangeMapPacket { .. } => PacketKind::ChangeMapPacket,
            MapServerPacket::ResurrectionPacket { .. } => PacketKind::ResurrectionPacket,
            MapServerPacket::EntityAppearedPacket { .. } => PacketKind::EntityAppearedPacket,
            MapServerPacket::EntityAppeared2Packet { .. } => PacketKind::EntityAppeared2Packet,
            MapServerPacket::MovingEntityAppearedPacket { .. } => PacketKind::MovingEntityAppearedPacket,
            MapServerPacket::EntityDisappearedPacket { .. } => PacketKind::EntityDisappearedPacket,
            MapServerPacket::UpdateStatPacket { .. } => PacketKind::UpdateStatPacket,
            MapServerPacket::UpdateStatPacket1 { .. } => PacketKind::UpdateStatPacket1,
            MapServerPacket::UpdateStatPacket2 { .. } => PacketKind::UpdateStatPacket2,
            MapServerPacket::UpdateStatPacket3 { .. } => PacketKind::UpdateStatPacket3,
            MapServerPacket::SpriteChangePacket { .. } => PacketKind::SpriteChangePacket,
            MapServerPacket::InventoyStartPacket => PacketKind::InventoyStartPacket,
            MapServerPacket::RegularItemListPacket { .. } => PacketKind::RegularItemListPacket,
            MapServerPacket::EquippableItemListPacket { .. } => PacketKind::EquippableItemListPacket,
            MapServerPacket::InventoyEndPacket => PacketKind::InventoyEndPacket,
            MapServerPacket::UpdateSkillTreePacket { .. } => PacketKind::UpdateSkillTreePacket,
            MapServerPacket::UpdateHotkeysPacket { .. } => PacketKind::UpdateHotkeysPacket,
            MapServerPacket::InitialStatsPacket { .. } => PacketKind::InitialStatsPacket,
            MapServerPacket::NextButtonPacket { .. } => PacketKind::NextButtonPacket,
            MapServerPacket::CloseButtonPacket { .. } => PacketKind::CloseButtonPacket,
            MapServerPacket::DialogMenuPacket { .. } => PacketKind::DialogMenuPacket,
            MapServerPacket::DisplaySkillEffectNoDamagePacket { .. } => PacketKind::DisplaySkillEffectNoDamagePacket,
            MapServerPacket::VisualEffectPacket { .. } => PacketKind::VisualEffectPacket,
            MapServerPacket::QuestEffectPacket(_) => PacketKind::QuestEffectPacket,
            MapServerPacket::ItemPickupPacket(_) => PacketKind::ItemPickupPacket,
            MapServerPacket::RemoveItemFromInventoryPacket { .. } => PacketKind::RemoveItemFromInventoryPacket,
            MapServerPacket::ServerTickPacket { .. } => PacketKind::ServerTickPacket,
            MapServerPacket::RequestPlayerDetailsSuccessPacket { .. } => PacketKind::RequestPlayerDetailsSuccessPacket,
            MapServerPacket::RequestEntityDetailsSuccessPacket { .. } => PacketKind::RequestEntityDetailsSuccessPacket,
            MapServerPacket::UpdateEntityHealthPointsPacket { .. } => PacketKind::UpdateEntityHealthPointsPacket,
            MapServerPacket::RequestPlayerAttackFailedPacket { .. } => PacketKind::RequestPlayerAttackFailedPacket,
            MapServerPacket::DamagePacket1(_) => PacketKind::DamagePacket1,
            MapServerPacket::DamagePacket3(_) => PacketKind::DamagePacket3,
            MapServerPacket::NpcDialogPacket { .. } => PacketKind::NpcDialogPacket,
            MapServerPacket::RequestEquipItemStatusPacket { .. } => PacketKind::RequestEquipItemStatusPacket,
            MapServerPacket::RequestUnequipItemStatusPacket { .. } => PacketKind::RequestUnequipItemStatusPacket,
            MapServerPacket::MapServerLoginSuccessPacket { .. } => PacketKind::MapServerLoginSuccessPacket,
            MapServerPacket::RestartResponsePacket { .. } => PacketKind::RestartResponsePacket,
            MapServerPacket::DisconnectResponsePacket { .. } => PacketKind::DisconnectResponsePacket,
            MapServerPacket::NotifySkillUnitPacket { .. } => PacketKind::NotifySkillUnitPacket,
            MapServerPacket::SkillUnitDisappearPacket { .. } => PacketKind::SkillUnitDisappearPacket,
            MapServerPacket::FriendListPacket { .. } => PacketKind::FriendListPacket,
            MapServerPacket::FriendRequestPacket { .. } => PacketKind::FriendRequestPacket,
            MapServerPacket::FriendRequestResultPacket { .. } => PacketKind::FriendRequestResultPacket,
            MapServerPacket::NotifyFriendRemovedPacket { .. } => PacketKind::NotifyFriendRemovedPacket,
            MapServerPacket::BuyOrSellPacket { .. } => PacketKind::BuyOrSellPacket,
            MapServerPacket::ShopItemListPacket { .. } => PacketKind::ShopItemListPacket,
            MapServerPacket::BuyShopItemsResultPacket { .. } => PacketKind::BuyShopItemsResultPacket,
            MapServerPacket::SellListPacket { .. } => PacketKind::SellListPacket,
            MapServerPacket::SellItemsResultPacket { .. } => PacketKind::SellItemsResultPacket,
            MapServerPacket::Other(kind) => *kind,
        }
    }

    /// The type of the packet.
    #[verifier::when_used_as_spec(spec_kind)]
    pub fn kind(&self) -> (kind: PacketKind)
        ensures
            kind == self.spec_kind(),
    {
        match self {
            MapServerPacket::MapServerPingPacket => PacketKind::MapServerPingPacket,
            MapServerPacket::BroadcastMessagePacket { .. } => PacketKind::BroadcastMessagePacket,
            MapServerPacket::Broadcast2MessagePacket { .. } => PacketKind::Broadcast2MessagePacket,
            MapServerPacket::OverheadMessagePacket { .. } => PacketKind::OverheadMessagePacket,
            MapServerPacket::ServerMessagePacket { .. } => PacketKind::ServerMessagePacket,
            MapServerPacket::EntityMessagePacket { .. } => PacketKind::EntityMessagePacket,
            MapServerPacket::EntityMovePacket { .. } => PacketKind::EntityMovePacket,
            MapServerPacket::PlayerMovePacket { .. } => PacketKind::PlayerMovePacket,
            MapServerPacket::ChangeMapPacket { .. } => PacketKind::ChangeMapPacket,
            MapServerPacket::ResurrectionPacket { .. } => PacketKind::ResurrectionPacket,
            MapServerPacket::EntityAppearedPacket { .. } => PacketKind::EntityAppearedPacket,
            MapServerPacket::EntityAppeared2Packet { .. } => PacketKind::EntityAppeared2Packet,
            MapServerPacket::MovingEntityAppearedPacket { .. } => PacketKind::MovingEntityAppearedPacket,
            MapServerPacket::EntityDisappearedPacket { .. } => PacketKind::EntityDisappearedPacket,
            MapServerPacket::UpdateStatPacket { .. } => PacketKind::UpdateStatPacket,
            MapServerPacket::UpdateStatPacket1 { .. } => PacketKind::UpdateStatPacket1,
            MapServerPacket::UpdateStatPacket2 { .. } => PacketKind::UpdateStatPacket2,
            MapServerPacket::UpdateStatPacket3 { .. } => PacketKind::UpdateStatPacket3,
            MapServerPacket::SpriteChangePacket { .. } => PacketKind::SpriteChangePacket,
            MapServerPacket::InventoyStartPacket => PacketKind::InventoyStartPacket,
            MapServerPacket::RegularItemListPacket { .. } => PacketKind::RegularItemListPacket,
            MapServerPacket::EquippableItemListPacket { .. } => PacketKind::EquippableItemListPacket,
            MapServerPacket::InventoyEndPacket => PacketKind::InventoyEndPacket,
            MapServerPacket::UpdateSkillTreePacket { .. } => PacketKind::UpdateSkillTreePacket,
            MapServerPacket::UpdateHotkeysPacket { .. } => PacketKind::UpdateHotkeysPacket,
            MapServerPacket::InitialStatsPacket { .. } => PacketKind::InitialStatsPacket,
            MapServerPacket::NextButtonPacket { .. } => PacketKind::NextButtonPacket,
            MapServerPacket::CloseButtonPacket { .. } => PacketKind::CloseButtonPacket,
            MapServerPacket::DialogMenuPacket { .. } => PacketKind::DialogMenuPacket,
            MapServerPacket::DisplaySkillEffectNoDamagePacket { .. } => PacketKind::DisplaySkillEffectNoDamagePacket,
            MapServerPacket::VisualEffectPacket { .. } => PacketKind::VisualEffectPacket,
            MapServerPacket::QuestEffectPacket(_) => PacketKind::QuestEffectPacket,
            MapServerPacket::ItemPickupPacket(_) => PacketKind::ItemPickupPacket,
            MapServerPacket::RemoveItemFromInventoryPacket { .. } => PacketKind::RemoveItemFromInventoryPacket,
            MapServerPacket::ServerTickPacket { .. } => PacketKind::ServerTickPacket,
            MapServerPacket::RequestPlayerDetailsSuccessPacket { .. } => PacketKind::RequestPlayerDetailsSuccessPacket,
            MapServerPacket::RequestEntityDetailsSuccessPacket { .. } => PacketKind::RequestEntityDetailsSuccessPacket,
            MapServerPacket::UpdateEntityHealthPointsPacket { .. } => PacketKind::UpdateEntityHealthPointsPacket,
            MapServerPacket::RequestPlayerAttackFailedPacket { .. } => PacketKind::RequestPlayerAttackFailedPacket,
            MapServerPacket::DamagePacket1(_) => PacketKind::DamagePacket1,
            MapServerPacket::DamagePacket3(_) => PacketKind::DamagePacket3,
            MapServerPacket::NpcDialogPacket { .. } => PacketKind::NpcDialogPacket,
            MapServerPacket::RequestEquipItemStatusPacket { .. } => PacketKind::RequestEquipItemStatusPacket,
            MapServerPacket::RequestUnequipItemStatusPacket { .. } => PacketKind::RequestUnequipItemStatusPacket,
            MapServerPacket::MapServerLoginSuccessPacket { .. } => PacketKind::MapServerLoginSuccessPacket,
            MapServerPacket::RestartResponsePacket { .. } => PacketKind::RestartResponsePacket,
            MapServerPacket::DisconnectResponsePacket { .. } => PacketKind::DisconnectResponsePacket,
            MapServerPacket::NotifySkillUnitPacket { .. } => PacketKind::NotifySkillUnitPacket,
            MapServerPacket::SkillUnitDisappearPacket { .. } => PacketKind::SkillUnitDisappearPacket,
            MapServerPacket::FriendListPacket { .. } => PacketKind::FriendListPacket,
            MapServerPacket::FriendRequestPacket { .. } => PacketKind::FriendRequestPacket,
            MapServerPacket::FriendRequestResultPacket { .. } => PacketKind::FriendRequestResultPacket,
            MapServerPacket::NotifyFriendRemovedPacket { .. } => PacketKind::NotifyFriendRemovedPacket,
            MapServerPacket::BuyOrSellPacket { .. } => PacketKind::BuyOrSellPacket,
            MapServerPacket::ShopItemListPacket { .. } => PacketKind::ShopItemListPacket,
            MapServerPacket::BuyShopItemsResultPacket { .. } => PacketKind::BuyShopItemsResultPacket,
            MapServerPacket::SellListPacket { .. } => PacketKind::SellListPacket,
            MapServerPacket::SellItemsResultPacket { .. } => PacketKind::SellItemsResultPacket,
            MapServerPacket::Other(kind) => *kind,
        }
    }

    /// Whether the client can handle the packet. It cannot handle an item that
    /// was not picked up: what that becomes is undecided.
    pub open spec fn spec_is_supported(&self) -> bool {
        match self {
            MapServerPacket::ItemPickupPacket(pickup) => pickup.result == ItemPickupResult::Success,
            _ => true,
        }
    }

    #[verifier::when_used_as_spec(spec_is_supported)]
    pub fn is_supported(&self) -> (supported: bool)
        ensures
            supported == self.spec_is_supported(),
    {
        match self {
            MapServerPacket::ItemPickupPacket(pickup) => match pickup.result {
                ItemPickupResult::Success => true,
                _ => false,
            },
            _ => true,
        }
    }
}

/// The packet types for chat lines and what comes with them.
pub open spec fn message_wiring(kind: PacketKind) -> Option<Handling> {
    match kind {
        PacketKind::MapServerPingPacket => Some(Handling::Translate),
        PacketKind::BroadcastMessagePacket => Some(Handling::Translate),
        PacketKind::Broadcast2MessagePacket => Some(Handling::Translate),
        PacketKind::OverheadMessagePacket => Some(Handling::Translate),
        PacketKind::ServerMessagePacket => Some(Handling::Translate),
        PacketKind::MessageTablePacket => Some(Handling::Ignore),
        PacketKind::EntityMessagePacket => Some(Handling::Translate),
        PacketKind::DisplayEmotionPacket => Some(Handling::Ignore),
        _ => None,
    }
}

/// The registrations for chat lines and what comes with them, in order.
pub open spec fn message_registrations() -> Seq<(PacketKind, Handling)> {
    Seq::empty()
        .push((PacketKind::MapServerPingPacket, Handling::Translate))
        .push((PacketKind::BroadcastMessagePacket, Handling::Translate))
        .push((PacketKind::Broadcast2MessagePacket, Handling::Translate))
        .push((PacketKind::OverheadMessagePacket, Handling::Translate))
        .push((PacketKind::ServerMessagePacket, Handling::Translate))
        .push((PacketKind::MessageTablePacket, Handling::Ignore))
        .push((PacketKind::EntityMessagePacket, Handling::Translate))
        .push((PacketKind::DisplayEmotionPacket, Handling::Ignore))
}

fn register_message_packets(packet_handler: &mut PacketHandlerRegistry) -> (registered: Result<
    (),
    DuplicateHandlerError,
>)
    requires
        old(packet_handler).wf(),
    ensures
        final(packet_handler).wf(),
        (registered, final(packet_handler)@) == registered_in_order(old(packet_handler)@, message_registrations()),
        phase_registered(
            old(packet_handler)@,
            |kind: PacketKind| message_wiring(kind),
            registered,
            final(packet_handler)@,
        ),
{
    proof {
        reveal(phase_registered);
        let before = packet_handler@;
        assert forall|entries: Seq<(PacketKind, Handling)>, entry: (PacketKind, Handling)|
            #[trigger] registered_in_order(before, entries.push(entry)) == registered_next(
                registered_in_order(before, entries),
                entry,
            ) by {
            lemma_registered_with_one_more(before, entries, entry);
        }
    }
    packet_handler.register(PacketKind::MapServerPingPacket)?;
    packet_handler.register(PacketKind::BroadcastMessagePacket)?;
    packet_handler.register(PacketKind::Broadcast2MessagePacket)?;
    packet_handler.register(PacketKind::OverheadMessagePacket)?;
    packet_handler.register(PacketKind::ServerMessagePacket)?;
    packet_handler.register_noop(PacketKind::MessageTablePacket)?;
    packet_handler.register(PacketKind::EntityMessagePacket)?;
    packet_handler.register_noop(PacketKind::DisplayEmotionPacket)?;

    Ok(())
}

/// The packet types for entities that move, appear and disappear.
pub open spec fn entity_wiring(kind: PacketKind) -> Option<Handling> {
    match kind {
        PacketKind::EntityMovePacket => Some(Handling::Translate),
        PacketKind::EntityStopMovePacket => Some(Handling::Ignore),
        PacketKind::PlayerMovePacket => Some(Handling::Translate),
        PacketKind::ChangeMapPacket => Some(Handling::Translate),
        PacketKind::ResurrectionPacket => Some(Handling::Translate),
        PacketKind::EntityAppearedPacket => Some(Handling::Translate),
        PacketKind::EntityAppeared2Packet => Some(Handling::Translate),
        PacketKind::MovingEntityAppearedPacket => Some(Handling::Translate),
        PacketKind::EntityDisappearedPacket => Some(Handling::Translate),
        _ => None,
    }
}

/// The registrations for entities that move, appear and disappear, in order.
pub open spec fn entity_registrations() -> Seq<(PacketKind, Handling)> {
    Seq::empty()
        .push((PacketKind::EntityMovePacket, Handling::Translate))
        .push((PacketKind::EntityStopMovePacket, Handling::Ignore))
        .push((PacketKind::PlayerMovePacket, Handling::Translate))
        .push((PacketKind::ChangeMapPacket, Handling::Translate))
        .push((PacketKind::ResurrectionPacket, Handling::Translate))
        .push((PacketKind::EntityAppearedPacket, Handling::Translate))
        .push((PacketKind::EntityAppeared2Packet, Handling::Translate))
        .push((PacketKind::MovingEntityAppearedPacket, Handling::Translate))
        .push((PacketKind::EntityDisappearedPacket, Handling::Translate))
}

fn register_entity_packets(packet_handler: &mut PacketHandlerRegistry) -> (registered: Result<
    (),
    DuplicateHandlerError,
>)
    requires
        old(packet_handler).wf(),
    ensures
        final(packet_handler).wf(),
        (registered, final(packet_handler)@) == registered_in_order(old(packet_handler)@, entity_registrations()),
        phase_registered(
            old(packet_handler)@,
            |kind: PacketKind| entity_wiring(kind),
            registered,
            final(packet_handler)@,
        ),
{
    proof {
        reveal(phase_registered);
        let before = packet_handler@;
        assert forall|entries: Seq<(PacketKind, Handling)>, entry: (PacketKind, Handling)|
            #[trigger] registered_in_order(before, entries.push(entry)) == registered_next(
                registered_in_order(before, entries),
                entry,
            ) by {
            lemma_registered_with_one_more(before, entries, entry);
        }
    }
    packet_handler.register(PacketKind::EntityMovePacket)?;
    packet_handler.register_noop(PacketKind::EntityStopMovePacket)?;
    packet_handler.register(PacketKind::PlayerMovePacket)?;
    packet_handler.register(PacketKind::ChangeMapPacket)?;
    packet_handler.register(PacketKind::ResurrectionPacket)?;
    packet_handler.register(PacketKind::EntityAppearedPacket)?;
    packet_handler.register(PacketKind::EntityAppeared2Packet)?;
    packet_handler.register(PacketKind::MovingEntityAppearedPacket)?;
    packet_handler.register(PacketKind::EntityDisappearedPacket)?;

    Ok(())
}

/// The packet types for the player's status.
pub open spec fn status_wiring(kind: PacketKind) -> Option<Handling> {
    match kind {
        PacketKind::UpdateStatPacket => Some(Handling::Translate),
        PacketKind::UpdateStatPacket1 => Some(Handling::Translate),
        PacketKind::UpdateStatPacket2 => Some(Handling::Translate),
        PacketKind::UpdateStatPacket3 => Some(Handling::Translate),
        PacketKind::UpdateAttackRangePacket => Some(Handling::Ignore),
        PacketKind::NewMailStatusPacket => Some(Handling::Ignore),
        PacketKind::AchievementUpdatePacket => Some(Handling::Ignore),
        PacketKind::AchievementListPacket => Some(Handling::Ignore),
        PacketKind::CriticalWeightUpdatePacket => Some(Handling::Ignore),
        PacketKind::SpriteChangePacket => Some(Handling::Translate),
        _ => None,
    }
}

/// The registrations for the player's status, in order.
pub open spec fn status_registrations() -> Seq<(PacketKind, Handling)> {
    Seq::empty()
        .push((PacketKind::UpdateStatPacket, Handling::Translate))
        .push((PacketKind::UpdateStatPacket1, Handling::Translate))
        .push((PacketKind::UpdateStatPacket2, Handling::Translate))
        .push((PacketKind::UpdateStatPacket3, Handling::Translate))
        .push((PacketKind::UpdateAttackRangePacket, Handling::Ignore))
        .push((PacketKind::NewMailStatusPacket, Handling::Ignore))
        .push((PacketKind::AchievementUpdatePacket, Handling::Ignore))
        .push((PacketKind::AchievementListPacket, Handling::Ignore))
        .push((PacketKind::CriticalWeightUpdatePacket, Handling::Ignore))
        .push((PacketKind::SpriteChangePacket, Handling::Translate))
}

fn register_status_packets(packet_handler: &mut PacketHandlerRegistry) -> (registered: Result<
    (),
    DuplicateHandlerError,
>)
    requires
        old(packet_handler).wf(),
    ensures
        final(packet_handler).wf(),
        (registered, final(packet_handler)@) == registered_in_order(old(packet_handler)@, status_registrations()),
        phase_registered(
            old(packet_handler)@,
            |kind: PacketKind| status_wiring(kind),
            registered,
            final(packet_handler)@,
        ),
{
    proof {
        reveal(phase_registered);
        let before = packet_handler@;
        assert forall|entries: Seq<(PacketKind, Handling)>, entry: (PacketKind, Handling)|
            #[trigger] registered_in_order(before, entries.push(entry)) == registered_next(
                registered_in_order(before, entries),
                entry,
            ) by {
            lemma_registered_with_one_more(before, entries, entry);
        }
    }
    packet_handler.register(PacketKind::UpdateStatPacket)?;
    packet_handler.register(PacketKind::UpdateStatPacket1)?;
    packet_handler.register(PacketKind::UpdateStatPacket2)?;
    packet_handler.register(PacketKind::UpdateStatPacket3)?;
    packet_handler.register_noop(PacketKind::UpdateAttackRangePacket)?;
    packet_handler.register_noop(PacketKind::NewMailStatusPacket)?;
    packet_handler.register_noop(PacketKind::AchievementUpdatePacket)?;
    packet_handler.register_noop(PacketKind::AchievementListPacket)?;
    packet_handler.register_noop(PacketKind::CriticalWeightUpdatePacket)?;
    packet_handler.register(PacketKind::SpriteChangePacket)?;

    Ok(())
}

/// The packet types for the inventory.
pub open spec fn inventory_wiring(kind: PacketKind) -> Option<Handling> {
    match kind {
        PacketKind::InventoyStartPacket => Some(Handling::Translate),
        PacketKind::RegularItemListPacket => Some(Handling::Translate),
        PacketKind::EquippableItemListPacket => Some(Handling::Translate),
        PacketKind::InventoyEndPacket => Some(Handling::Translate),
        PacketKind::EquippableSwitchItemListPacket => Some(Handling::Ignore),
        PacketKind::MapTypePacket => Some(Handling::Ignore),
        _ => None,
    }
}

/// The registrations for the inventory, in order.
pub open spec fn inventory_registrations() -> Seq<(PacketKind, Handling)> {
    Seq::empty()
        .push((PacketKind::InventoyStartPacket, Handling::Translate))
        .push((PacketKind::RegularItemListPacket, Handling::Translate))
        .push((PacketKind::EquippableItemListPacket, Handling::Translate))
        .push((PacketKind::InventoyEndPacket, Handling::Translate))
        .push((PacketKind::EquippableSwitchItemListPacket, Handling::Ignore))
        .push((PacketKind::MapTypePacket, Handling::Ignore))
}

fn register_inventory_packets(packet_handler: &mut PacketHandlerRegistry) -> (registered: Result<
    (),
    DuplicateHandlerError,
>)
    requires
        old(packet_handler).wf(),
    ensures
        final(packet_handler).wf(),
        (registered, final(packet_handler)@) == registered_in_order(old(packet_handler)@, inventory_registrations()),
        phase_registered(
            old(packet_handler)@,
            |kind: PacketKind| inventory_wiring(kind),
            registered,
            final(packet_handler)@,
        ),
{
    proof {
        reveal(phase_registered);
        let before = packet_handler@;
        assert forall|entries: Seq<(PacketKind, Handling)>, entry: (PacketKind, Handling)|
            #[trigger] registered_in_order(before, entries.push(entry)) == registered_next(
                registered_in_order(before, entries),
                entry,
            ) by {
            lemma_registered_with_one_more(before, entries, entry);
        }
    }
    packet_handler.register(PacketKind::InventoyStartPacket)?;
    packet_handler.register(PacketKind::RegularItemListPacket)?;
    packet_handler.register(PacketKind::EquippableItemListPacket)?;
    packet_handler.register(PacketKind::InventoyEndPacket)?;
    packet_handler.register_noop(PacketKind::EquippableSwitchItemListPacket)?;
    packet_handler.register_noop(PacketKind::MapTypePacket)?;

    Ok(())
}

/// The packet types for what the player has set up: skills, hotkeys and options.
pub open spec fn setup_wiring(kind: PacketKind) -> Option<Handling> {
    match kind {
        PacketKind::UpdateSkillTreePacket => Some(Handling::Translate),
        PacketKind::UpdateHotkeysPacket => Some(Handling::Translate),
        PacketKind::InitialStatsPacket => Some(Handling::Translate),
        PacketKind::UpdatePartyInvitationStatePacket => Some(Handling::Ignore),
        PacketKind::UpdateShowEquipPacket => Some(Handling::Ignore),
        PacketKind::UpdateConfigurationPacket => Some(Handling::Ignore),
        PacketKind::NavigateToMonsterPacket => Some(Handling::Ignore),
        PacketKind::MarkMinimapPositionPacket => Some(Handling::Ignore),
        _ => None,
    }
}

/// The registrations for what the player has set up: skills, hotkeys and options, in order.
pub open spec fn setup_registrations() -> Seq<(PacketKind, Handling)> {
    Seq::empty()
        .push((PacketKind::UpdateSkillTreePacket, Handling::Translate))
        .push((PacketKind::UpdateHotkeysPacket, Handling::Translate))
        .push((PacketKind::InitialStatsPacket, Handling::Translate))
        .push((PacketKind::UpdatePartyInvitationStatePacket, Handling::Ignore))
        .push((PacketKind::UpdateShowEquipPacket, Handling::Ignore))
        .push((PacketKind::UpdateConfigurationPacket, Handling::Ignore))
        .push((PacketKind::NavigateToMonsterPacket, Handling::Ignore))
        .push((PacketKind::MarkMinimapPositionPacket, Handling::Ignore))
}

fn register_setup_packets(packet_handler: &mut PacketHandlerRegistry) -> (registered: Result<
    (),
    DuplicateHandlerError,
>)
    requires
        old(packet_handler).wf(),
    ensures
        final(packet_handler).wf(),
        (registered, final(packet_handler)@) == registered_in_order(old(packet_handler)@, setup_registrations()),
        phase_registered(
            old(packet_handler)@,
            |kind: PacketKind| setup_wiring(kind),
            registered,
            final(packet_handler)@,
        ),
{
    proof {
        reveal(phase_registered);
        let before = packet_handler@;
        assert forall|entries: Seq<(PacketKind, Handling)>, entry: (PacketKind, Handling)|
            #[trigger] registered_in_order(before, entries.push(entry)) == registered_next(
                registered_in_order(before, entries),
                entry,
            ) by {
            lemma_registered_with_one_more(before, entries, entry);
        }
    }
    packet_handler.register(PacketKind::UpdateSkillTreePacket)?;
    packet_handler.register(PacketKind::UpdateHotkeysPacket)?;
    packet_handler.register(PacketKind::InitialStatsPacket)?;
    packet_handler.register_noop(PacketKind::UpdatePartyInvitationStatePacket)?;
    packet_handler.register_noop(PacketKind::UpdateShowEquipPacket)?;
    packet_handler.register_noop(PacketKind::UpdateConfigurationPacket)?;
    packet_handler.register_noop(PacketKind::NavigateToMonsterPacket)?;
    packet_handler.register_noop(PacketKind::MarkMinimapPositionPacket)?;

    Ok(())
}

/// The packet types for dialogs and the effects of skills.
pub open spec fn dialog_wiring(kind: PacketKind) -> Option<Handling> {
    match kind {
        PacketKind::NextButtonPacket => Some(Handling::Translate),
        PacketKind::CloseButtonPacket => Some(Handling::Translate),
        PacketKind::DialogMenuPacket => Some(Handling::Translate),
        PacketKind::DisplaySpecialEffectPacket => Some(Handling::Ignore),
        PacketKind::DisplaySkillCooldownPacket => Some(Handling::Ignore),
        PacketKind::DisplaySkillEffectAndDamagePacket => Some(Handling::Ignore),
        PacketKind::DisplaySkillEffectNoDamagePacket => Some(Handling::Translate),
        PacketKind::DisplayPlayerHealEffect => Some(Handling::Ignore),
        PacketKind::StatusChangePacket => Some(Handling::Ignore),
        _ => None,
    }
}

/// The registrations for dialogs and the effects of skills, in order.
pub open spec fn dialog_registrations() -> Seq<(PacketKind, Handling)> {
    Seq::empty()
        .push((PacketKind::NextButtonPacket, Handling::Translate))
        .push((PacketKind::CloseButtonPacket, Handling::Translate))
        .push((PacketKind::DialogMenuPacket, Handling::Translate))
        .push((PacketKind::DisplaySpecialEffectPacket, Handling::Ignore))
        .push((PacketKind::DisplaySkillCooldownPacket, Handling::Ignore))
        .push((PacketKind::DisplaySkillEffectAndDamagePacket, Handling::Ignore))
        .push((PacketKind::DisplaySkillEffectNoDamagePacket, Handling::Translate))
        .push((PacketKind::DisplayPlayerHealEffect, Handling::Ignore))
        .push((PacketKind::StatusChangePacket, Handling::Ignore))
}

fn register_dialog_packets(packet_handler: &mut PacketHandlerRegistry) -> (registered: Result<
    (),
    DuplicateHandlerError,
>)
    requires
        old(packet_handler).wf(),
    ensures
        final(packet_handler).wf(),
        (registered, final(packet_handler)@) == registered_in_order(old(packet_handler)@, dialog_registrations()),
        phase_registered(
            old(packet_handler)@,
            |kind: PacketKind| dialog_wiring(kind),
            registered,
            final(packet_handler)@,
        ),
{
    proof {
        reveal(phase_registered);
        let before = packet_handler@;
        assert forall|entries: Seq<(PacketKind, Handling)>, entry: (PacketKind, Handling)|
            #[trigger] registered_in_order(before, entries.push(entry)) == registered_next(
                registered_in_order(before, entries),
                entry,
            ) by {
            lemma_registered_with_one_more(before, entries, entry);
        }
    }
    packet_handler.register(PacketKind::NextButtonPacket)?;
    packet_handler.register(PacketKind::CloseButtonPacket)?;
    packet_handler.register(PacketKind::DialogMenuPacket)?;
    packet_handler.register_noop(PacketKind::DisplaySpecialEffectPacket)?;
    packet_handler.register_noop(PacketKind::DisplaySkillCooldownPacket)?;
    packet_handler.register_noop(PacketKind::DisplaySkillEffectAndDamagePacket)?;
    packet_handler.register(PacketKind::DisplaySkillEffectNoDamagePacket)?;
    packet_handler.register_noop(PacketKind::DisplayPlayerHealEffect)?;
    packet_handler.register_noop(PacketKind::StatusChangePacket)?;

    Ok(())
}

/// The packet types for quests and the effects shown with them.
pub open spec fn quest_wiring(kind: PacketKind) -> Option<Handling> {
    match kind {
        PacketKind::QuestNotificationPacket1 => Some(Handling::Ignore),
        PacketKind::HuntingQuestNotificationPacket => Some(Handling::Ignore),
        PacketKind::HuntingQuestUpdateObjectivePacket => Some(Handling::Ignore),
        PacketKind::QuestRemovedPacket => Some(Handling::Ignore),
        PacketKind::QuestListPacket => Some(Handling::Ignore),
        PacketKind::VisualEffectPacket => Some(Handling::Translate),
        PacketKind::DisplayGainedExperiencePacket => Some(Handling::Ignore),
        PacketKind::DisplayImagePacket => Some(Handling::Ignore),
        PacketKind::StateChangePacket => Some(Handling::Ignore),
        PacketKind::QuestEffectPacket => Some(Handling::Translate),
        _ => None,
    }
}

/// The registrations for quests and the effects shown with them, in order.
pub open spec fn quest_registrations() -> Seq<(PacketKind, Handling)> {
    Seq::empty()
        .push((PacketKind::QuestNotificationPacket1, Handling::Ignore))
        .push((PacketKind::HuntingQuestNotificationPacket, Handling::Ignore))
        .push((PacketKind::HuntingQuestUpdateObjectivePacket, Handling::Ignore))
        .push((PacketKind::QuestRemovedPacket, Handling::Ignore))
        .push((PacketKind::QuestListPacket, Handling::Ignore))
        .push((PacketKind::VisualEffectPacket, Handling::Translate))
        .push((PacketKind::DisplayGainedExperiencePacket, Handling::Ignore))
        .push((PacketKind::DisplayImagePacket, Handling::Ignore))
        .push((PacketKind::StateChangePacket, Handling::Ignore))
        .push((PacketKind::QuestEffectPacket, Handling::Translate))
}

fn register_quest_packets(packet_handler: &mut PacketHandlerRegistry) -> (registered: Result<
    (),
    DuplicateHandlerError,
>)
    requires
        old(packet_handler).wf(),
    ensures
        final(packet_handler).wf(),
        (registered, final(packet_handler)@) == registered_in_order(old(packet_handler)@, quest_registrations()),
        phase_registered(
            old(packet_handler)@,
            |kind: PacketKind| quest_wiring(kind),
            registered,
            final(packet_handler)@,
        ),
{
    proof {
        reveal(phase_registered);
        let before = packet_handler@;
        assert forall|entries: Seq<(PacketKind, Handling)>, entry: (PacketKind, Handling)|
            #[trigger] registered_in_order(before, entries.push(entry)) == registered_next(
                registered_in_order(before, entries),
                entry,
            ) by {
            lemma_registered_with_one_more(before, entries, entry);
        }
    }
    packet_handler.register_noop(PacketKind::QuestNotificationPacket1)?;
    packet_handler.register_noop(PacketKind::HuntingQuestNotificationPacket)?;
    packet_handler.register_noop(PacketKind::HuntingQuestUpdateObjectivePacket)?;
    packet_handler.register_noop(PacketKind::QuestRemovedPacket)?;
    packet_handler.register_noop(PacketKind::QuestListPacket)?;
    packet_handler.register(PacketKind::VisualEffectPacket)?;
    packet_handler.register_noop(PacketKind::DisplayGainedExperiencePacket)?;
    packet_handler.register_noop(PacketKind::DisplayImagePacket)?;
    packet_handler.register_noop(PacketKind::StateChangePacket)?;
    packet_handler.register(PacketKind::QuestEffectPacket)?;

    Ok(())
}

/// The packet types for items picked up and details asked for.
pub open spec fn item_wiring(kind: PacketKind) -> Option<Handling> {
    match kind {
        PacketKind::ItemPickupPacket => Some(Handling::Translate),
        PacketKind::RemoveItemFromInventoryPacket => Some(Handling::Translate),
        PacketKind::ServerTickPacket => Some(Handling::Translate),
        PacketKind::RequestPlayerDetailsSuccessPacket => Some(Handling::Translate),
        PacketKind::RequestEntityDetailsSuccessPacket => Some(Handling::Translate),
        PacketKind::UpdateEntityHealthPointsPacket => Some(Handling::Translate),
        PacketKind::RequestPlayerAttackFailedPacket => Some(Handling::Translate),
        _ => None,
    }
}

/// The registrations for items picked up and details asked for, in order.
pub open spec fn item_registrations() -> Seq<(PacketKind, Handling)> {
    Seq::empty()
        .push((PacketKind::ItemPickupPacket, Handling::Translate))
        .push((PacketKind::RemoveItemFromInventoryPacket, Handling::Translate))
        .push((PacketKind::ServerTickPacket, Handling::Translate))
        .push((PacketKind::RequestPlayerDetailsSuccessPacket, Handling::Translate))
        .push((PacketKind::RequestEntityDetailsSuccessPacket, Handling::Translate))
        .push((PacketKind::UpdateEntityHealthPointsPacket, Handling::Translate))
        .push((PacketKind::RequestPlayerAttackFailedPacket, Handling::Translate))
}

fn register_item_packets(packet_handler: &mut PacketHandlerRegistry) -> (registered: Result<
    (),
    DuplicateHandlerError,
>)
    requires
        old(packet_handler).wf(),
    ensures
        final(packet_handler).wf(),
        (registered, final(packet_handler)@) == registered_in_order(old(packet_handler)@, item_registrations()),
        phase_registered(
            old(packet_handler)@,
            |kind: PacketKind| item_wiring(kind),
            registered,
            final(packet_handler)@,
        ),
{
    proof {
        reveal(phase_registered);
        let before = packet_handler@;
        assert forall|entries: Seq<(PacketKind, Handling)>, entry: (PacketKind, Handling)|
            #[trigger] registered_in_order(before, entries.push(entry)) == registered_next(
                registered_in_order(before, entries),
                entry,
            ) by {
            lemma_registered_with_one_more(before, entries, entry);
        }
    }
    packet_handler.register(PacketKind::ItemPickupPacket)?;
    packet_handler.register(PacketKind::RemoveItemFromInventoryPacket)?;
    packet_handler.register(PacketKind::ServerTickPacket)?;
    packet_handler.register(PacketKind::RequestPlayerDetailsSuccessPacket)?;
    packet_handler.register(PacketKind::RequestEntityDetailsSuccessPacket)?;
    packet_handler.register(PacketKind::UpdateEntityHealthPointsPacket)?;
    packet_handler.register(PacketKind::RequestPlayerAttackFailedPacket)?;

    Ok(())
}

/// The packet types for fights and equipment.
pub open spec fn combat_wiring(kind: PacketKind) -> Option<Handling> {
    match kind {
        PacketKind::DamagePacket1 => Some(Handling::Translate),
        PacketKind::DamagePacket3 => Some(Handling::Translate),
        PacketKind::NpcDialogPacket => Some(Handling::Translate),
        PacketKind::RequestEquipItemStatusPacket => Some(Handling::Translate),
        PacketKind::RequestUnequipItemStatusPacket => Some(Handling::Translate),
        PacketKind::Packet8302 => Some(Handling::Ignore),
        PacketKind::Packet0b18 => Some(Handling::Ignore),
        _ => None,
    }
}

/// The registrations for fights and equipment, in order.
pub open spec fn combat_registrations() -> Seq<(PacketKind, Handling)> {
    Seq::empty()
        .push((PacketKind::DamagePacket1, Handling::Translate))
        .push((PacketKind::DamagePacket3, Handling::Translate))
        .push((PacketKind::NpcDialogPacket, Handling::Translate))
        .push((PacketKind::RequestEquipItemStatusPacket, Handling::Translate))
        .push((PacketKind::RequestUnequipItemStatusPacket, Handling::Translate))
        .push((PacketKind::Packet8302, Handling::Ignore))
        .push((PacketKind::Packet0b18, Handling::Ignore))
}

fn register_combat_packets(packet_handler: &mut PacketHandlerRegistry) -> (registered: Result<
    (),
    DuplicateHandlerError,
>)
    requires
        old(packet_handler).wf(),
    ensures
        final(packet_handler).wf(),
        (registered, final(packet_handler)@) == registered_in_order(old(packet_handler)@, combat_registrations()),
        phase_registered(
            old(packet_handler)@,
            |kind: PacketKind| combat_wiring(kind),
            registered,
            final(packet_handler)@,
        ),
{
    proof {
        reveal(phase_registered);
        let before = packet_handler@;
        assert forall|entries: Seq<(PacketKind, Handling)>, entry: (PacketKind, Handling)|
            #[trigger] registered_in_order(before, entries.push(entry)) == registered_next(
                registered_in_order(before, entries),
                entry,
            ) by {
            lemma_registered_with_one_more(before, entries, entry);
        }
    }
    packet_handler.register(PacketKind::DamagePacket1)?;
    packet_handler.register(PacketKind::DamagePacket3)?;
    packet_handler.register(PacketKind::NpcDialogPacket)?;
    packet_handler.register(PacketKind::RequestEquipItemStatusPacket)?;
    packet_handler.register(PacketKind::RequestUnequipItemStatusPacket)?;
    packet_handler.register_noop(PacketKind::Packet8302)?;
    packet_handler.register_noop(PacketKind::Packet0b18)?;

    Ok(())
}

/// The packet types for the session and the units of skills.
pub open spec fn session_wiring(kind: PacketKind) -> Option<Handling> {
    match kind {
        PacketKind::MapServerLoginSuccessPacket => Some(Handling::Translate),
        PacketKind::RestartResponsePacket => Some(Handling::Translate),
        PacketKind::DisconnectResponsePacket => Some(Handling::Translate),
        PacketKind::UseSkillSuccessPacket => Some(Handling::Ignore),
        PacketKind::ToUseSkillSuccessPacket => Some(Handling::Ignore),
        PacketKind::NotifySkillUnitPacket => Some(Handling::Translate),
        PacketKind::SkillUnitDisappearPacket => Some(Handling::Translate),
        PacketKind::NotifyGroundSkillPacket => Some(Handling::Ignore),
        _ => None,
    }
}

/// The registrations for the session and the units of skills, in order.
pub open spec fn session_registrations() -> Seq<(PacketKind, Handling)> {
    Seq::empty()
        .push((PacketKind::MapServerLoginSuccessPacket, Handling::Translate))
        .push((PacketKind::RestartResponsePacket, Handling::Translate))
        .push((PacketKind::DisconnectResponsePacket, Handling::Translate))
        .push((PacketKind::UseSkillSuccessPacket, Handling::Ignore))
        .push((PacketKind::ToUseSkillSuccessPacket, Handling::Ignore))
        .push((PacketKind::NotifySkillUnitPacket, Handling::Translate))
        .push((PacketKind::SkillUnitDisappearPacket, Handling::Translate))
        .push((PacketKind::NotifyGroundSkillPacket, Handling::Ignore))
}

fn register_session_packets(packet_handler: &mut PacketHandlerRegistry) -> (registered: Result<
    (),
    DuplicateHandlerError,
>)
    requires
        old(packet_handler).wf(),
    ensures
        final(packet_handler).wf(),
        (registered, final(packet_handler)@) == registered_in_order(old(packet_handler)@, session_registrations()),
        phase_registered(
            old(packet_handler)@,
            |kind: PacketKind| session_wiring(kind),
            registered,
            final(packet_handler)@,
        ),
{
    proof {
        reveal(phase_registered);
        let before = packet_handler@;
        assert forall|entries: Seq<(PacketKind, Handling)>, entry: (PacketKind, Handling)|
            #[trigger] registered_in_order(before, entries.push(entry)) == registered_next(
                registered_in_order(before, entries),
                entry,
            ) by {
            lemma_registered_with_one_more(before, entries, entry);
        }
    }
    packet_handler.register(PacketKind::MapServerLoginSuccessPacket)?;
    packet_handler.register(PacketKind::RestartResponsePacket)?;
    packet_handler.register(PacketKind::DisconnectResponsePacket)?;
    packet_handler.register_noop(PacketKind::UseSkillSuccessPacket)?;
    packet_handler.register_noop(PacketKind::ToUseSkillSuccessPacket)?;
    packet_handler.register(PacketKind::NotifySkillUnitPacket)?;
    packet_handler.register(PacketKind::SkillUnitDisappearPacket)?;
    packet_handler.register_noop(PacketKind::NotifyGroundSkillPacket)?;

    Ok(())
}

/// The packet types for friends, parties and clans.
pub open spec fn social_wiring(kind: PacketKind) -> Option<Handling> {
    match kind {
        PacketKind::FriendListPacket => Some(Handling::Translate),
        PacketKind::FriendOnlineStatusPacket => Some(Handling::Ignore),
        PacketKind::FriendRequestPacket => Some(Handling::Translate),
        PacketKind::FriendRequestResultPacket => Some(Handling::Translate),
        PacketKind::NotifyFriendRemovedPacket => Some(Handling::Translate),
        PacketKind::PartyInvitePacket => Some(Handling::Ignore),
        PacketKind::StatusChangeSequencePacket => Some(Handling::Ignore),
        PacketKind::ReputationPacket => Some(Handling::Ignore),
        PacketKind::ClanInfoPacket => Some(Handling::Ignore),
        PacketKind::ClanOnlineCountPacket => Some(Handling::Ignore),
        PacketKind::ChangeMapCellPacket => Some(Handling::Ignore),
        PacketKind::OpenMarketPacket => Some(Handling::Ignore),
        _ => None,
    }
}

/// The registrations for friends, parties and clans, in order.
pub open spec fn social_registrations() -> Seq<(PacketKind, Handling)> {
    Seq::empty()
        .push((PacketKind::FriendListPacket, Handling::Translate))
        .push((PacketKind::FriendOnlineStatusPacket, Handling::Ignore))
        .push((PacketKind::FriendRequestPacket, Handling::Translate))
        .push((PacketKind::FriendRequestResultPacket, Handling::Translate))
        .push((PacketKind::NotifyFriendRemovedPacket, Handling::Translate))
        .push((PacketKind::PartyInvitePacket, Handling::Ignore))
        .push((PacketKind::StatusChangeSequencePacket, Handling::Ignore))
        .push((PacketKind::ReputationPacket, Handling::Ignore))
        .push((PacketKind::ClanInfoPacket, Handling::Ignore))
        .push((PacketKind::ClanOnlineCountPacket, Handling::Ignore))
        .push((PacketKind::ChangeMapCellPacket, Handling::Ignore))
        .push((PacketKind::OpenMarketPacket, Handling::Ignore))
}

fn register_social_packets(packet_handler: &mut PacketHandlerRegistry) -> (registered: Result<
    (),
    DuplicateHandlerError,
>)
    requires
        old(packet_handler).wf(),
    ensures
        final(packet_handler).wf(),
        (registered, final(packet_handler)@) == registered_in_order(old(packet_handler)@, social_registrations()),
        phase_registered(
            old(packet_handler)@,
            |kind: PacketKind| social_wiring(kind),
            registered,
            final(packet_handler)@,
        ),
{
    proof {
        reveal(phase_registered);
        let before = packet_handler@;
        assert forall|entries: Seq<(PacketKind, Handling)>, entry: (PacketKind, Handling)|
            #[trigger] registered_in_order(before, entries.push(entry)) == registered_next(
                registered_in_order(before, entries),
                entry,
            ) by {
            lemma_registered_with_one_more(before, entries, entry);
        }
    }
    packet_handler.register(PacketKind::FriendListPacket)?;
    packet_handler.register_noop(PacketKind::FriendOnlineStatusPacket)?;
    packet_handler.register(PacketKind::FriendRequestPacket)?;
    packet_handler.register(PacketKind::FriendRequestResultPacket)?;
    packet_handler.register(PacketKind::NotifyFriendRemovedPacket)?;
    packet_handler.register_noop(PacketKind::PartyInvitePacket)?;
    packet_handler.register_noop(PacketKind::StatusChangeSequencePacket)?;
    packet_handler.register_noop(PacketKind::ReputationPacket)?;
    packet_handler.register_noop(PacketKind::ClanInfoPacket)?;
    packet_handler.register_noop(PacketKind::ClanOnlineCountPacket)?;
    packet_handler.register_noop(PacketKind::ChangeMapCellPacket)?;
    packet_handler.register_noop(PacketKind::OpenMarketPacket)?;

    Ok(())
}

/// The packet types for shops and what follows a sale.
pub open spec fn shop_wiring(kind: PacketKind) -> Option<Handling> {
    match kind {
        PacketKind::BuyOrSellPacket => Some(Handling::Translate),
        PacketKind::ShopItemListPacket => Some(Handling::Translate),
        PacketKind::BuyShopItemsResultPacket => Some(Handling::Translate),
        PacketKind::ParameterChangePacket => Some(Handling::Ignore),
        PacketKind::SellListPacket => Some(Handling::Translate),
        PacketKind::SellItemsResultPacket => Some(Handling::Translate),
        PacketKind::RequestStatUpResponsePacket => Some(Handling::Ignore),
        PacketKind::EquipAmmunitionPacket => Some(Handling::Ignore),
        PacketKind::AmmunitionActionPacket => Some(Handling::Ignore),
        _ => None,
    }
}

/// The registrations for shops and what follows a sale, in order.
pub open spec fn shop_registrations() -> Seq<(PacketKind, Handling)> {
    Seq::empty()
        .push((PacketKind::BuyOrSellPacket, Handling::Translate))
        .push((PacketKind::ShopItemListPacket, Handling::Translate))
        .push((PacketKind::BuyShopItemsResultPacket, Handling::Translate))
        .push((PacketKind::ParameterChangePacket, Handling::Ignore))
        .push((PacketKind::SellListPacket, Handling::Translate))
        .push((PacketKind::SellItemsResultPacket, Handling::Translate))
        .push((PacketKind::RequestStatUpResponsePacket, Handling::Ignore))
        .push((PacketKind::EquipAmmunitionPacket, Handling::Ignore))
        .push((PacketKind::AmmunitionActionPacket, Handling::Ignore))
}

fn register_shop_packets(packet_handler: &mut PacketHandlerRegistry) -> (registered: Result<
    (),
    DuplicateHandlerError,
>)
    requires
        old(packet_handler).wf(),
    ensures
        final(packet_handler).wf(),
        (registered, final(packet_handler)@) == registered_in_order(old(packet_handler)@, shop_registrations()),
        phase_registered(
            old(packet_handler)@,
            |kind: PacketKind| shop_wiring(kind),
            registered,
            final(packet_handler)@,
        ),
{
    proof {
        reveal(phase_registered);
        let before = packet_handler@;
        assert forall|entries: Seq<(PacketKind, Handling)>, entry: (PacketKind, Handling)|
            #[trigger] registered_in_order(before, entries.push(entry)) == registered_next(
                registered_in_order(before, entries),
                entry,
            ) by {
            lemma_registered_with_one_more(before, entries, entry);
        }
    }
    packet_handler.register(PacketKind::BuyOrSellPacket)?;
    packet_handler.register(PacketKind::ShopItemListPacket)?;
    packet_handler.register(PacketKind::BuyShopItemsResultPacket)?;
    packet_handler.register_noop(PacketKind::ParameterChangePacket)?;
    packet_handler.register(PacketKind::SellListPacket)?;
    packet_handler.register(PacketKind::SellItemsResultPacket)?;
    packet_handler.register_noop(PacketKind::RequestStatUpResponsePacket)?;
    packet_handler.register_noop(PacketKind::EquipAmmunitionPacket)?;
    packet_handler.register_noop(PacketKind::AmmunitionActionPacket)?;

    Ok(())
}

/// What the map phase does with each packet type: `None` for a type that the
/// phase does not know.
pub open spec fn map_server_wiring(kind: PacketKind) -> Option<Handling> {
    if message_wiring(kind) is Some {
        message_wiring(kind)
    } else if entity_wiring(kind) is Some {
        entity_wiring(kind)
    } else if status_wiring(kind) is Some {
        status_wiring(kind)
    } else if inventory_wiring(kind) is Some {
        inventory_wiring(kind)
    } else if setup_wiring(kind) is Some {
        setup_wiring(kind)
    } else if dialog_wiring(kind) is Some {
        dialog_wiring(kind)
    } else if quest_wiring(kind) is Some {
        quest_wiring(kind)
    } else if item_wiring(kind) is Some {
        item_wiring(kind)
    } else if combat_wiring(kind) is Some {
        combat_wiring(kind)
    } else if session_wiring(kind) is Some {
        session_wiring(kind)
    } else if social_wiring(kind) is Some {
        social_wiring(kind)
    } else {
        shop_wiring(kind)
    }
}

/// The registrations of the map phase, in the order in which they are made.
pub open spec fn map_server_registrations() -> Seq<(PacketKind, Handling)> {
    message_registrations() + entity_registrations() + status_registrations() + inventory_registrations() + setup_registrations() + dialog_registrations() + quest_registrations() + item_registrations() + combat_registrations() + session_registrations() + social_registrations() + shop_registrations()
}

/// Registers the packet types of the map phase, in order, up to the first
/// that is registered already.
pub fn register_map_server_packets(packet_handler: &mut PacketHandlerRegistry) -> (registered: Result<
    (),
    DuplicateHandlerError,
>)
    requires
        old(packet_handler).wf(),
    ensures
        final(packet_handler).wf(),
        (registered, final(packet_handler)@) == registered_in_order(old(packet_handler)@, map_server_registrations()),
        phase_registered(
            old(packet_handler)@,
            |kind: PacketKind| map_server_wiring(kind),
            registered,
            final(packet_handler)@,
        ),
{
    let ghost before = packet_handler@;
    let ghost all = |kind: PacketKind| map_server_wiring(kind);
    let ghost everything = map_server_registrations();
    let ghost done = |kind: PacketKind| None::<Handling>;
    let ghost made = Seq::<(PacketKind, Handling)>::empty();
    proof {
        lemma_nothing_registered(before);
    }

    let ghost between = packet_handler@;
    let ghost group = |kind: PacketKind| message_wiring(kind);
    let ghost entries = message_registrations();
    proof {
        lemma_next_group(before, done, made, between, group, entries, all, everything);
    }
    register_message_packets(packet_handler)?;
    let ghost done = either_wiring(done, group);
    let ghost made = made + entries;

    let ghost between = packet_handler@;
    let ghost group = |kind: PacketKind| entity_wiring(kind);
    let ghost entries = entity_registrations();
    proof {
        lemma_next_group(before, done, made, between, group, entries, all, everything);
    }
    register_entity_packets(packet_handler)?;
    let ghost done = either_wiring(done, group);
    let ghost made = made + entries;

    let ghost between = packet_handler@;
    let ghost group = |kind: PacketKind| status_wiring(kind);
    let ghost entries = status_registrations();
    proof {
        lemma_next_group(before, done, made, between, group, entries, all, everything);
    }
    register_status_packets(packet_handler)?;
    let ghost done = either_wiring(done, group);
    let ghost made = made + entries;

    let ghost between = packet_handler@;
    let ghost group = |kind: PacketKind| inventory_wiring(kind);
    let ghost entries = inventory_registrations();
    proof {
        lemma_next_group(before, done, made, between, group, entries, all, everything);
    }
    register_inventory_packets(packet_handler)?;
    let ghost done = either_wiring(done, group);
    let ghost made = made + entries;

    let ghost between = packet_handler@;
    let ghost group = |kind: PacketKind| setup_wiring(kind);
    let ghost entries = setup_registrations();
    proof {
        lemma_next_group(before, done, made, between, group, entries, all, everything);
    }
    register_setup_packets(packet_handler)?;
    let ghost done = either_wiring(done, group);
    let ghost made = made + entries;

    let ghost between = packet_handler@;
    let ghost group = |kind: PacketKind| dialog_wiring(kind);
    let ghost entries = dialog_registrations();
    proof {
        lemma_next_group(before, done, made, between, group, entries, all, everything);
    }
    register_dialog_packets(packet_handler)?;
    let ghost done = either_wiring(done, group);
    let ghost made = made + entries;

    let ghost between = packet_handler@;
    let ghost group = |kind: PacketKind| quest_wiring(kind);
    let ghost entries = quest_registrations();
    proof {
        lemma_next_group(before, done, made, between, group, entries, all, everything);
    }
    register_quest_packets(packet_handler)?;
    let ghost done = either_wiring(done, group);
    let ghost made = made + entries;

    let ghost between = packet_handler@;
    let ghost group = |kind: PacketKind| item_wiring(kind);
    let ghost entries = item_registrations();
    proof {
        lemma_next_group(before, done, made, between, group, entries, all, everything);
    }
    register_item_packets(packet_handler)?;
    let ghost done = either_wiring(done, group);
    let ghost made = made + entries;

    let ghost between = packet_handler@;
    let ghost group = |kind: PacketKind| combat_wiring(kind);
    let ghost entries = combat_registrations();
    proof {
        lemma_next_group(before, done, made, between, group, entries, all, everything);
    }
    register_combat_packets(packet_handler)?;
    let ghost done = either_wiring(done, group);
    let ghost made = made + entries;

    let ghost between = packet_handler@;
    let ghost group = |kind: PacketKind| session_wiring(kind);
    let ghost entries = session_registrations();
    proof {
        lemma_next_group(before, done, made, between, group, entries, all, everything);
    }
    register_session_packets(packet_handler)?;
    let ghost done = either_wiring(done, group);
    let ghost made = made + entries;

    let ghost between = packet_handler@;
    let ghost group = |kind: PacketKind| social_wiring(kind);
    let ghost entries = social_registrations();
    proof {
        lemma_next_group(before, done, made, between, group, entries, all, everything);
    }
    register_social_packets(packet_handler)?;
    let ghost done = either_wiring(done, group);
    let ghost made = made + entries;

    let ghost between = packet_handler@;
    let ghost group = |kind: PacketKind| shop_wiring(kind);
    let ghost entries = shop_registrations();
    proof {
        lemma_next_group(before, done, made, between, group, entries, all, everything);
    }
    register_shop_packets(packet_handler)?;
    let ghost done = either_wiring(done, group);
    let ghost made = made + entries;

    proof {
        lemma_same_wiring(before, done, all, Ok(()), packet_handler@);
        assert(made =~= everything);
    }

    Ok(())
}

} // verus!
