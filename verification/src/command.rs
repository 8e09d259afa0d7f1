//! What a provider asks of a server, and what passes between a networked
//! provider and the tasks that own its sockets.

use vstd::prelude::*;

use crate::character::CharacterServerPacket;
use crate::items::ShopItem;
use crate::login::LoginServerPacket;
use crate::map::MapServerPacket;
use crate::registry::PacketKind;
use crate::session::{ConnectionPhase, NetworkTaskError};
use crate::types::{LoginServerLoginData, SupportedPacketVersion};
use crate::wire::{
    AccountId, BuyOrSellOption, CharacterId, EntityId, EquipPosition, HotbarSlot, HotbarTab, HotkeyData,
    InventoryIndex, ServerEndpoint, ShopId, SkillId, SkillLevel, SoldItemInformation, StatUpType, TilePosition,
    WorldPosition,
};

verus! {

/// Something the client asks of a server. The packet codec turns it into
/// the bytes of the version in use.
#[derive(Debug, Clone, PartialEq, Eq)]
pub enum Command {
    /// Greets the login server with the account's credentials.
    Login { username: String, password: String },
    /// Greets the character server with what the login server handed out.
    CharacterLogin { login_data: LoginServerLoginData },
    /// Greets the map server with what the two other servers handed out.
    MapLogin { login_data: LoginServerLoginData, character_id: CharacterId },
    RequestCharacterList,
    SelectCharacter { character_slot: usize },
    CreateCharacter { slot: usize, name: String },
    DeleteCharacter { character_id: CharacterId },
    SwitchCharacterSlot { origin_slot: usize, destination_slot: usize },
    MapLoaded,
    RequestClientTick,
    Respawn,
    LogOut,
    PlayerMove { position: WorldPosition },
    WarpToMap { map_name: String, position: TilePosition },
    EntityDetails { entity_id: EntityId },
    PlayerAttack { entity_id: EntityId },
    SendChatMessage { player_name: String, text: String },
    StartDialog { npc_id: EntityId },
    NextDialog { npc_id: EntityId },
    CloseDialog { npc_id: EntityId },
    ChooseDialogOption { npc_id: EntityId, option: i8 },
    RequestItemEquip { item_index: InventoryIndex, equip_position: EquipPosition },
    RequestItemUnequip { item_index: InventoryIndex },
    CastSkill { skill_id: SkillId, skill_level: SkillLevel, entity_id: EntityId },
    CastGroundSkill { skill_id: SkillId, skill_level: SkillLevel, target_position: TilePosition },
    CastChannelingSkill { skill_id: SkillId, skill_level: SkillLevel, entity_id: EntityId },
    StopChannelingSkill { skill_id: SkillId },
    AddFriend { name: String },
    RemoveFriend { account_id: AccountId, character_id: CharacterId },
    RejectFriendRequest { account_id: AccountId, character_id: CharacterId },
    AcceptFriendRequest { account_id: AccountId, character_id: CharacterId },
    SetHotkeyData { tab: HotbarTab, index: HotbarSlot, hotkey_data: HotkeyData },
    SelectBuyOrSell { shop_id: ShopId, buy_or_sell: BuyOrSellOption },
    PurchaseItems { items: Vec<ShopItem<u32>> },
    CloseShop,
    SellItems { items: Vec<SoldItemInformation> },
    RequestStatUp { stat_type: StatUpType },
}

impl Command {
    pub open spec fn spec_phase(&self) -> ConnectionPhase {
        match self {
            Command::Login { .. } => ConnectionPhase::LoginServer,
            Command::CharacterLogin { .. } => ConnectionPhase::CharacterServer,
            Command::MapLogin { .. } => ConnectionPhase::MapServer,
            Command::RequestCharacterList => ConnectionPhase::CharacterServer,
            Command::SelectCharacter { .. } => ConnectionPhase::CharacterServer,
            Command::CreateCharacter { .. } => ConnectionPhase::CharacterServer,
            Command::DeleteCharacter { .. } => ConnectionPhase::CharacterServer,
            Command::SwitchCharacterSlot { .. } => ConnectionPhase::CharacterServer,
            Command::MapLoaded => ConnectionPhase::MapServer,
            Command::RequestClientTick => ConnectionPhase::MapServer,
            Command::Respawn => ConnectionPhase::MapServer,
            Command::LogOut => ConnectionPhase::MapServer,
            Command::PlayerMove { .. } => ConnectionPhase::MapServer,
            Command::WarpToMap { .. } => ConnectionPhase::MapServer,
            Command::EntityDetails { .. } => ConnectionPhase::MapServer,
            Command::PlayerAttack { .. } => ConnectionPhase::MapServer,
            Command::SendChatMessage { .. } => ConnectionPhase::MapServer,
            Command::StartDialog { .. } => ConnectionPhase::MapServer,
            Command::NextDialog { .. } => ConnectionPhase::MapServer,
            Command::CloseDialog { .. } => ConnectionPhase::MapServer,
            Command::ChooseDialogOption { .. } => ConnectionPhase::MapServer,
            Command::RequestItemEquip { .. } => ConnectionPhase::MapServer,
            Command::RequestItemUnequip { .. } => ConnectionPhase::MapServer,
            Command::CastSkill { .. } => ConnectionPhase::MapServer,
            Command::CastGroundSkill { .. } => ConnectionPhase::MapServer,
            Command::CastChannelingSkill { .. } => ConnectionPhase::MapServer,
            Command::StopChannelingSkill { .. } => ConnectionPhase::MapServer,
            Command::AddFriend { .. } => ConnectionPhase::MapServer,
            Command::RemoveFriend { .. } => ConnectionPhase::MapServer,
            Command::RejectFriendRequest { .. } => ConnectionPhase::MapServer,
            Command::AcceptFriendRequest { .. } => ConnectionPhase::MapServer,
            Command::SetHotkeyData { .. } => ConnectionPhase::MapServer,
            Command::SelectBuyOrSell { .. } => ConnectionPhase::MapServer,
            Command::PurchaseItems { .. } => ConnectionPhase::MapServer,
            Command::CloseShop => ConnectionPhase::MapServer,
            Command::SellItems { .. } => ConnectionPhase::MapServer,
            Command::RequestStatUp { .. } => ConnectionPhase::MapServer,
        }
    }

    /// The server that the command is for.
    #[verifier::when_used_as_spec(spec_phase)]
    pub fn phase(&self) -> (phase: ConnectionPhase)
        ensures
            phase == self.spec_phase(),
    {
        match self {
            Command::Login { .. } => ConnectionPhase::LoginServer,
            Command::CharacterLogin { .. } => ConnectionPhase::CharacterServer,
            Command::MapLogin { .. } => ConnectionPhase::MapServer,
            Command::RequestCharacterList => ConnectionPhase::CharacterServer,
            Command::SelectCharacter { .. } => ConnectionPhase::CharacterServer,
            Command::CreateCharacter { .. } => ConnectionPhase::CharacterServer,
            Command::DeleteCharacter { .. } => ConnectionPhase::CharacterServer,
            Command::SwitchCharacterSlot { .. } => ConnectionPhase::CharacterServer,
            Command::MapLoaded => ConnectionPhase::MapServer,
            Command::RequestClientTick => ConnectionPhase::MapServer,
            Command::Respawn => ConnectionPhase::MapServer,
            Command::LogOut => ConnectionPhase::MapServer,
            Command::PlayerMove { .. } => ConnectionPhase::MapServer,
            Command::WarpToMap { .. } => ConnectionPhase::MapServer,
            Command::EntityDetails { .. } => ConnectionPhase::MapServer,
            Command::PlayerAttack { .. } => ConnectionPhase::MapServer,
            Command::SendChatMessage { .. } => ConnectionPhase::MapServer,
            Command::StartDialog { .. } => ConnectionPhase::MapServer,
            Command::NextDialog { .. } => ConnectionPhase::MapServer,
            Command::CloseDialog { .. } => ConnectionPhase::MapServer,
            Command::ChooseDialogOption { .. } => ConnectionPhase::MapServer,
            Command::RequestItemEquip { .. } => ConnectionPhase::MapServer,
            Command::RequestItemUnequip { .. } => ConnectionPhase::MapServer,
            Command::CastSkill { .. } => ConnectionPhase::MapServer,
            Command::CastGroundSkill { .. } => ConnectionPhase::MapServer,
            Command::CastChannelingSkill { .. } => ConnectionPhase::MapServer,
            Command::StopChannelingSkill { .. } => ConnectionPhase::MapServer,
            Command::AddFriend { .. } => ConnectionPhase::MapServer,
            Command::RemoveFriend { .. } => ConnectionPhase::MapServer,
            Command::RejectFriendRequest { .. } => ConnectionPhase::MapServer,
            Command::AcceptFriendRequest { .. } => ConnectionPhase::MapServer,
            Command::SetHotkeyData { .. } => ConnectionPhase::MapServer,
            Command::SelectBuyOrSell { .. } => ConnectionPhase::MapServer,
            Command::PurchaseItems { .. } => ConnectionPhase::MapServer,
            Command::CloseShop => ConnectionPhase::MapServer,
            Command::SellItems { .. } => ConnectionPhase::MapServer,
            Command::RequestStatUp { .. } => ConnectionPhase::MapServer,
        }
    }
}

/// What a networked provider asks of the tasks that own the sockets. The
/// requests are to be carried out in the order in which they were made.
#[derive(Debug, Clone, PartialEq, Eq)]
pub enum TransportRequest {
    /// Open a connection for a phase.
    Open { phase: ConnectionPhase, endpoint: ServerEndpoint, packet_version: SupportedPacketVersion },
    /// Send a command to a phase's server.
    Send { phase: ConnectionPhase, command: Command },
    /// Send what is still queued for a phase as far as possible, then end
    /// its connection.
    Close { phase: ConnectionPhase },
}

/// What the tasks that own the sockets report of a phase's transport.
#[derive(Debug, Clone, Copy, PartialEq, Eq, Structural)]
pub enum TransportChange {
    /// The connection stands.
    Established,
    /// The connection could not be made, or broke.
    Failed(NetworkTaskError),
    /// The task has ended.
    Closed,
}

/// A decoded packet of any of the three servers.
#[derive(Debug, PartialEq, Eq)]
pub enum ServerPacket {
    Login(LoginServerPacket),
    Character(CharacterServerPacket),
    MapServer(MapServerPacket),
}

impl ServerPacket {
    pub open spec fn spec_phase(&self) -> ConnectionPhase {
        match self {
            ServerPacket::Login(_) => ConnectionPhase::LoginServer,
            ServerPacket::Character(_) => ConnectionPhase::CharacterServer,
            ServerPacket::MapServer(_) => ConnectionPhase::MapServer,
        }
    }

    /// The server that sent the packet.
    #[verifier::when_used_as_spec(spec_phase)]
    pub fn phase(&self) -> (phase: ConnectionPhase)
        ensures
            phase == self.spec_phase(),
    {
        match self {
            ServerPacket::Login(_) => ConnectionPhase::LoginServer,
            ServerPacket::Character(_) => ConnectionPhase::CharacterServer,
            ServerPacket::MapServer(_) => ConnectionPhase::MapServer,
        }
    }

    pub open spec fn spec_kind(&self) -> PacketKind {
        match self {
            ServerPacket::Login(packet) => packet.spec_kind(),
            ServerPacket::Character(packet) => packet.spec_kind(),
            ServerPacket::MapServer(packet) => packet.spec_kind(),
        }
    }

    /// The type of the packet.
    #[verifier::when_used_as_spec(spec_kind)]
    pub fn kind(&self) -> (kind: PacketKind)
        ensures
            kind == self.spec_kind(),
    {
        match self {
            ServerPacket::Login(packet) => packet.kind(),
            ServerPacket::Character(packet) => packet.kind(),
            ServerPacket::MapServer(packet) => packet.kind(),
        }
    }

    pub open spec fn spec_is_supported(&self) -> bool {
        match self {
            ServerPacket::MapServer(packet) => packet.spec_is_supported(),
            _ => true,
        }
    }

    /// Whether the client can handle the packet.
    #[verifier::when_used_as_spec(spec_is_supported)]
    pub fn is_supported(&self) -> (supported: bool)
        ensures
            supported == self.spec_is_supported(),
    {
        match self {
            ServerPacket::MapServer(packet) => packet.is_supported(),
            _ => true,
        }
    }
}

} // verus!
