//! The events through which decoded server state reaches the client.

use vstd::prelude::*;

use crate::entity::EntityData;
use crate::items::{InventoryItem, NoMetadata, ShopItem};
use crate::types::{
    CharacterServerLoginData, LoginServerLoginData, UnifiedCharacterSelectionFailedReason, UnifiedLoginFailedReason,
};
use crate::wire::{
    AccountId, BuyShopItemsResult, CharacterCreationFailedReason, CharacterDeletionFailedReason, CharacterId,
    CharacterInformation, CharacterServerInformation, ClientTick, DisappearanceReason, EntityId, EquipPosition, Friend,
    HotbarTab, HotkeyData, InventoryIndex, LoginFailedReason, QuestEffectPacket, RemoveItemReason,
    SellItemInformation, SellItemsResult, ShopId, SkillInformation, StatType, TilePosition, UnitId, WorldPosition,
};

verus! {

/// Why a session with a server ended.
#[derive(Debug, Clone, Copy, PartialEq, Eq, Structural)]
pub enum DisconnectReason {
    /// The client asked for it.
    ClosedByClient,
    /// The server could not be reached.
    FailedToConnect,
    /// The connection broke, or the server closed it.
    ConnectionClosed,
}

/// How a chat line is to be coloured.
#[derive(Debug, Clone, Copy, PartialEq, Eq, Structural)]
pub enum MessageColor {
    Rgb { red: u8, green: u8, blue: u8 },
    Broadcast,
    Server,
    Error,
    Information,
}

/// What a hotbar slot holds.
#[derive(Debug, Clone, Copy, PartialEq, Eq, Structural)]
pub enum HotkeyState {
    Bound(HotkeyData),
    Unbound,
}

impl HotkeyState {
    /// The state that wire data stands for.
    pub open spec fn of(data: HotkeyData) -> HotkeyState {
        if data == HotkeyData::spec_unbound() {
            HotkeyState::Unbound
        } else {
            HotkeyState::Bound(data)
        }
    }

    pub fn from_data(data: HotkeyData) -> (state: Self)
        ensures
            state == HotkeyState::of(data),
    {
        if data.is_skill == 0 && data.skill_id == 0 && data.quantity_or_skill_level.0 == 0 {
            HotkeyState::Unbound
        } else {
            HotkeyState::Bound(data)
        }
    }
}

/// A change of state that the user interface, the world or the renderer has
/// to learn of. No variant depends on the protocol version it came from.
#[derive(Debug, PartialEq, Eq)]
pub enum GameplayEvent {
    LoginServerConnected { character_servers: Vec<CharacterServerInformation>, login_data: LoginServerLoginData },
    LoginServerConnectionFailed { reason: UnifiedLoginFailedReason, message: &'static str },
    LoginServerDisconnected { reason: DisconnectReason },
    CharacterServerConnected { normal_slot_count: usize },
    CharacterServerConnectionFailed { reason: LoginFailedReason, message: &'static str },
    CharacterServerDisconnected { reason: DisconnectReason },
    MapServerDisconnected { reason: DisconnectReason },
    AccountId { account_id: AccountId },
    CharacterList { characters: Vec<CharacterInformation> },
    CharacterSelected { login_data: CharacterServerLoginData },
    CharacterSelectionFailed { reason: UnifiedCharacterSelectionFailedReason, message: &'static str },
    CharacterCreated { character_information: CharacterInformation },
    CharacterCreationFailed { reason: CharacterCreationFailedReason, message: &'static str },
    CharacterDeleted,
    CharacterDeletionFailed { reason: CharacterDeletionFailedReason, message: &'static str },
    CharacterSlotSwitched,
    CharacterSlotSwitchFailed,
    ChatMessage { text: String, color: MessageColor },
    EntityMove { entity_id: EntityId, origin: WorldPosition, destination: WorldPosition, starting_timestamp: ClientTick },
    PlayerMove { origin: WorldPosition, destination: WorldPosition, starting_timestamp: ClientTick },
    ChangeMap { map_name: String, position: TilePosition },
    ResurrectPlayer { entity_id: EntityId },
    AddEntity { entity_data: EntityData },
    RemoveEntity { entity_id: EntityId, reason: DisappearanceReason },
    UpdateStat { stat_type: StatType },
    ChangeJob { account_id: AccountId, job_id: u32 },
    ChangeHair { account_id: AccountId, hair_id: u32 },
    SetInventory { items: Vec<InventoryItem<NoMetadata>> },
    IventoryItemAdded { item: InventoryItem<NoMetadata> },
    InventoryItemRemoved { reason: RemoveItemReason, index: InventoryIndex, amount: u16 },
    SkillTree { skill_information: Vec<SkillInformation> },
    SetHotkeyData { tab: HotbarTab, hotkeys: Vec<HotkeyState> },
    InitialStats {
        strength_stat_points_cost: u8,
        agility_stat_points_cost: u8,
        vitality_stat_points_cost: u8,
        intelligence_stat_points_cost: u8,
        dexterity_stat_points_cost: u8,
        luck_stat_points_cost: u8,
    },
    OpenDialog { text: String, npc_id: EntityId },
    AddNextButton { npc_id: EntityId },
    AddCloseButton { npc_id: EntityId },
    AddChoiceButtons { choices: Vec<String>, npc_id: EntityId },
    HealEffect { entity_id: EntityId, heal_amount: usize },
    VisualEffect { effect_path: &'static str, entity_id: EntityId },
    AddQuestEffect { quest_effect: QuestEffectPacket },
    RemoveQuestEffect { entity_id: EntityId },
    UpdateClientTick { client_tick: ClientTick, received_at: std::time::Instant },
    UpdateEntityDetails { entity_id: EntityId, name: String },
    UpdateEntityHealth { entity_id: EntityId, health_points: usize, maximum_health_points: usize },
    AttackFailed {
        target_entity_id: EntityId,
        target_position: TilePosition,
        player_position: TilePosition,
        attack_range: u16,
    },
    DamageEffect {
        source_entity_id: EntityId,
        destination_entity_id: EntityId,
        damage_amount: Option<usize>,
        attack_duration: u32,
        is_critical: bool,
    },
    PlayerStandUp { entity_id: EntityId },
    UpdateEquippedPosition { index: InventoryIndex, equipped_position: EquipPosition },
    LoggedOut,
    AddSkillUnit { entity_id: EntityId, unit_id: UnitId, position: TilePosition },
    RemoveSkillUnit { entity_id: EntityId },
    SetFriendList { friend_list: Vec<Friend> },
    FriendRequest { requestee: Friend },
    FriendAdded { friend: Friend },
    FriendRemoved { account_id: AccountId, character_id: CharacterId },
    AskBuyOrSell { shop_id: ShopId },
    OpenShop { items: Vec<ShopItem<NoMetadata>> },
    BuyingCompleted { result: BuyShopItemsResult },
    SellItemList { items: Vec<SellItemInformation> },
    SellingCompleted { result: SellItemsResult },
}

/// What handling one packet yields: nothing, one event, or several in order.
#[derive(Debug, PartialEq, Eq)]
pub enum HandlerOutput {
    Nothing,
    One(GameplayEvent),
    Many(Vec<GameplayEvent>),
}

impl View for HandlerOutput {
    type V = Seq<GameplayEvent>;

    open spec fn view(&self) -> Seq<GameplayEvent> {
        match self {
            HandlerOutput::Nothing => Seq::empty(),
            HandlerOutput::One(event) => seq![*event],
            HandlerOutput::Many(events) => events@,
        }
    }
}

impl HandlerOutput {
    /// An event, where there is one.
    pub fn from_option(event: Option<GameplayEvent>) -> (output: Self)
        ensures
            output == match event {
                Some(event) => HandlerOutput::One(event),
                None => HandlerOutput::Nothing,
            },
    {
        match event {
            Some(event) => HandlerOutput::One(event),
            None => HandlerOutput::Nothing,
        }
    }

    /// The events as a list, in order.
    pub fn into_events(self) -> (events: Vec<GameplayEvent>)
        ensures
            events@ == self@,
    {
        match self {
            HandlerOutput::Nothing => Vec::new(),
            HandlerOutput::One(event) => {
                let mut events = Vec::new();
                events.push(event);
                events
            },
            HandlerOutput::Many(events) => events,
        }
    }
}

} // verus!
