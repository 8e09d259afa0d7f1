//! The one surface through which the client plays, whatever answers it: a
//! server over the network, or the client itself.

use vstd::prelude::*;

use crate::buffer::{drain_all, GameplayEventBuffer};
use crate::command::Command;
use crate::event::GameplayEvent;
use crate::items::ShopItem;
use crate::session::ConnectionPhase;
use crate::types::{CharacterServerLoginData, LoginServerLoginData, NotConnectedError, SupportedPacketVersion};
use crate::wire::{
    AccountId, BuyOrSellOption, CharacterId, CharacterServerInformation, EntityId, EquipPosition, HotbarSlot,
    HotbarTab, HotkeyData, InventoryIndex, ServerEndpoint, ShopId, SkillId, SkillLevel, SoldItemInformation,
    StatUpType, TilePosition, WorldPosition,
};

verus! {

/// What can be said of a provider in contracts.
pub trait ProviderModel: Sized {
    /// Whether the provider is in a state that its own operations lead to.
    spec fn wf(&self) -> bool;

    /// Whether commands to a server are accepted.
    spec fn connected(&self, phase: ConnectionPhase) -> bool;

    /// The events that wait to be fetched, oldest first.
    spec fn pending_events(&self) -> Seq<GameplayEvent>;

    /// Whether `after` is the provider after it was given a command and
    /// answered it with `answer`. Each provider says what its commands do.
    spec fn answered(&self, command: Command, answer: Result<(), NotConnectedError>, after: &Self) -> bool;
}

/// Whether `command` is a chat line of this player.
pub open spec fn is_chat_command(command: Command, player_name: Seq<char>, text: Seq<char>) -> bool {
    command matches Command::SendChatMessage { player_name: name, text: line } && name@ == player_name && line@
        == text
}

/// What every provider owes for a command to one of the servers.
///
/// The command fails exactly if the provider is not connected to that server,
/// and a command that fails leaves the provider as it was. No command
/// changes to which servers the provider is connected, and none takes back an
/// event that waits to be fetched.
pub open spec fn command_answered<P: ProviderModel>(
    before: P,
    after: P,
    phase: ConnectionPhase,
    answer: Result<(), NotConnectedError>,
) -> bool {
    &&& after.wf()
    &&& answer is Err <==> !before.connected(phase)
    &&& answer is Err ==> after == before
    &&& forall|other: ConnectionPhase| #[trigger] after.connected(other) == before.connected(other)
    &&& before.pending_events().is_prefix_of(after.pending_events())
}

/// Whatever the provider, a command to a server it is not connected to fails
/// and has no effect.
pub proof fn lemma_command_needs_connection<P: ProviderModel>(
    before: P,
    after: P,
    phase: ConnectionPhase,
    answer: Result<(), NotConnectedError>,
)
    requires
        command_answered(before, after, phase, answer),
        !before.connected(phase),
    ensures
        answer is Err,
        after == before,
{
}

/// What every provider owes when it is asked to connect to a server, or to
/// end the connection: the connections to the other servers stay as they are,
/// and no event that waits to be fetched is taken back.
pub open spec fn connection_changed<P: ProviderModel>(before: P, after: P, phase: ConnectionPhase) -> bool {
    &&& after.wf()
    &&& forall|other: ConnectionPhase|
        other != phase ==> #[trigger] after.connected(other) == before.connected(other)
    &&& before.pending_events().is_prefix_of(after.pending_events())
}

/// Trait that all gameplay providers must implement.
///
/// This trait defines the interface for interacting with a gameplay system,
/// whether it's a networked MMO server, a local single-player implementation,
/// or any other gameplay provider.
pub trait GameplayProvider: ProviderModel {
    /// Poll for new gameplay events.
    /// Events are drained from the provider and added to the provided buffer.
    /// Nothing is waited for.
    fn get_events(&mut self, events: &mut GameplayEventBuffer)
        requires
            old(self).wf(),
        ensures
            final(self).wf(),
            final(events)@ == old(events)@ + drain_all(old(self).pending_events()).0,
            final(self).pending_events() == drain_all(old(self).pending_events()).1,
            forall|phase: ConnectionPhase| #[trigger] final(self).connected(phase) == old(self).connected(phase),
    ;

    /// Connect to the login server.
    fn connect_to_login_server(
        &mut self,
        packet_version: SupportedPacketVersion,
        address: ServerEndpoint,
        username: &str,
        password: &str,
    )
        requires
            old(self).wf(),
        ensures
            connection_changed(*old(self), *final(self), ConnectionPhase::LoginServer),
    ;

    /// Connect to the character server.
    fn connect_to_character_server(
        &mut self,
        packet_version: SupportedPacketVersion,
        login_data: &LoginServerLoginData,
        server: CharacterServerInformation,
    )
        requires
            old(self).wf(),
        ensures
            connection_changed(*old(self), *final(self), ConnectionPhase::CharacterServer),
    ;

    /// Connect to the map server.
    fn connect_to_map_server(
        &mut self,
        packet_version: SupportedPacketVersion,
        login_server_login_data: &LoginServerLoginData,
        character_server_login_data: CharacterServerLoginData,
    )
        requires
            old(self).wf(),
        ensures
            connection_changed(*old(self), *final(self), ConnectionPhase::MapServer),
    ;

    /// Disconnect from the login server.
    fn disconnect_from_login_server(&mut self)
        requires
            old(self).wf(),
        ensures
            connection_changed(*old(self), *final(self), ConnectionPhase::LoginServer),
            !final(self).connected(ConnectionPhase::LoginServer),
    ;

    /// Disconnect from the character server.
    fn disconnect_from_character_server(&mut self)
        requires
            old(self).wf(),
        ensures
            connection_changed(*old(self), *final(self), ConnectionPhase::CharacterServer),
            !final(self).connected(ConnectionPhase::CharacterServer),
    ;

    /// Disconnect from the map server.
    fn disconnect_from_map_server(&mut self)
        requires
            old(self).wf(),
        ensures
            connection_changed(*old(self), *final(self), ConnectionPhase::MapServer),
            !final(self).connected(ConnectionPhase::MapServer),
    ;

    /// Check if connected to the login server.
    fn is_login_server_connected(&self) -> (connected: bool)
        requires
            self.wf(),
        ensures
            connected == self.connected(ConnectionPhase::LoginServer),
    ;

    /// Check if connected to the character server.
    fn is_character_server_connected(&self) -> (connected: bool)
        requires
            self.wf(),
        ensures
            connected == self.connected(ConnectionPhase::CharacterServer),
    ;

    /// Check if connected to the map server.
    fn is_map_server_connected(&self) -> (connected: bool)
        requires
            self.wf(),
        ensures
            connected == self.connected(ConnectionPhase::MapServer),
    ;

    /// Request the list of characters from the character server.
    fn request_character_list(&mut self) -> (answer: Result<(), NotConnectedError>)
        requires
            old(self).wf(),
        ensures
            command_answered(*old(self), *final(self), ConnectionPhase::CharacterServer, answer),
            old(self).answered(Command::RequestCharacterList, answer, final(self)),
    ;

    /// Select a character by slot number.
    fn select_character(&mut self, character_slot: usize) -> (answer: Result<(), NotConnectedError>)
        requires
            old(self).wf(),
        ensures
            command_answered(*old(self), *final(self), ConnectionPhase::CharacterServer, answer),
            old(self).answered(Command::SelectCharacter { character_slot }, answer, final(self)),
    ;

    /// Create a new character in the specified slot with the given name.
    fn create_character(&mut self, slot: usize, name: String) -> (answer: Result<(), NotConnectedError>)
        requires
            old(self).wf(),
        ensures
            command_answered(*old(self), *final(self), ConnectionPhase::CharacterServer, answer),
            old(self).answered(Command::CreateCharacter { slot, name }, answer, final(self)),
    ;

    /// Delete the character with the specified ID.
    fn delete_character(&mut self, character_id: CharacterId) -> (answer: Result<(), NotConnectedError>)
        requires
            old(self).wf(),
        ensures
            command_answered(*old(self), *final(self), ConnectionPhase::CharacterServer, answer),
            old(self).answered(Command::DeleteCharacter { character_id }, answer, final(self)),
    ;

    /// Switch character slots (swap two characters).
    fn switch_character_slot(&mut self, origin_slot: usize, destination_slot: usize) -> (answer: Result<(), NotConnectedError>)
        requires
            old(self).wf(),
        ensures
            command_answered(*old(self), *final(self), ConnectionPhase::CharacterServer, answer),
            old(self).answered(Command::SwitchCharacterSlot { origin_slot, destination_slot }, answer, final(self)),
    ;

    /// Notify the server that the map has finished loading.
    fn map_loaded(&mut self) -> (answer: Result<(), NotConnectedError>)
        requires
            old(self).wf(),
        ensures
            command_answered(*old(self), *final(self), ConnectionPhase::MapServer, answer),
            old(self).answered(Command::MapLoaded, answer, final(self)),
    ;

    /// Request the current client tick from the server for time
    /// synchronization.
    fn request_client_tick(&mut self) -> (answer: Result<(), NotConnectedError>)
        requires
            old(self).wf(),
        ensures
            command_answered(*old(self), *final(self), ConnectionPhase::MapServer, answer),
            old(self).answered(Command::RequestClientTick, answer, final(self)),
    ;

    /// Request to respawn after death.
    fn respawn(&mut self) -> (answer: Result<(), NotConnectedError>)
        requires
            old(self).wf(),
        ensures
            command_answered(*old(self), *final(self), ConnectionPhase::MapServer, answer),
            old(self).answered(Command::Respawn, answer, final(self)),
    ;

    /// Log out and return to character selection.
    fn log_out(&mut self) -> (answer: Result<(), NotConnectedError>)
        requires
            old(self).wf(),
        ensures
            command_answered(*old(self), *final(self), ConnectionPhase::MapServer, answer),
            old(self).answered(Command::LogOut, answer, final(self)),
    ;

    /// Move the player to a specific world position.
    fn player_move(&mut self, position: WorldPosition) -> (answer: Result<(), NotConnectedError>)
        requires
            old(self).wf(),
        ensures
            command_answered(*old(self), *final(self), ConnectionPhase::MapServer, answer),
            old(self).answered(Command::PlayerMove { position }, answer, final(self)),
    ;

    /// Warp to a specific map and tile position (GM command).
    fn warp_to_map(&mut self, map_name: String, position: TilePosition) -> (answer: Result<(), NotConnectedError>)
        requires
            old(self).wf(),
        ensures
            command_answered(*old(self), *final(self), ConnectionPhase::MapServer, answer),
            old(self).answered(Command::WarpToMap { map_name, position }, answer, final(self)),
    ;

    /// Request details about a specific entity.
    fn entity_details(&mut self, entity_id: EntityId) -> (answer: Result<(), NotConnectedError>)
        requires
            old(self).wf(),
        ensures
            command_answered(*old(self), *final(self), ConnectionPhase::MapServer, answer),
            old(self).answered(Command::EntityDetails { entity_id }, answer, final(self)),
    ;

    /// Attack a specific entity.
    fn player_attack(&mut self, entity_id: EntityId) -> (answer: Result<(), NotConnectedError>)
        requires
            old(self).wf(),
        ensures
            command_answered(*old(self), *final(self), ConnectionPhase::MapServer, answer),
            old(self).answered(Command::PlayerAttack { entity_id }, answer, final(self)),
    ;

    /// Send a chat message.
    fn send_chat_message(&mut self, player_name: &str, text: &str) -> (answer: Result<(), NotConnectedError>)
        requires
            old(self).wf(),
        ensures
            command_answered(*old(self), *final(self), ConnectionPhase::MapServer, answer),
    ;

    /// Start a dialog with an NPC.
    fn start_dialog(&mut self, npc_id: EntityId) -> (answer: Result<(), NotConnectedError>)
        requires
            old(self).wf(),
        ensures
            command_answered(*old(self), *final(self), ConnectionPhase::MapServer, answer),
            old(self).answered(Command::StartDialog { npc_id }, answer, final(self)),
    ;

    /// Advance to the next dialog page.
    fn next_dialog(&mut self, npc_id: EntityId) -> (answer: Result<(), NotConnectedError>)
        requires
            old(self).wf(),
        ensures
            command_answered(*old(self), *final(self), ConnectionPhase::MapServer, answer),
            old(self).answered(Command::NextDialog { npc_id }, answer, final(self)),
    ;

    /// Close the current dialog.
    fn close_dialog(&mut self, npc_id: EntityId) -> (answer: Result<(), NotConnectedError>)
        requires
            old(self).wf(),
        ensures
            command_answered(*old(self), *final(self), ConnectionPhase::MapServer, answer),
            old(self).answered(Command::CloseDialog { npc_id }, answer, final(self)),
    ;

    /// Choose a dialog option.
    fn choose_dialog_option(&mut self, npc_id: EntityId, option: i8) -> (answer: Result<(), NotConnectedError>)
        requires
            old(self).wf(),
        ensures
            command_answered(*old(self), *final(self), ConnectionPhase::MapServer, answer),
            old(self).answered(Command::ChooseDialogOption { npc_id, option }, answer, final(self)),
    ;

    /// Request to equip an item.
    fn request_item_equip(&mut self, item_index: InventoryIndex, equip_position: EquipPosition) -> (answer: Result<(), NotConnectedError>)
        requires
            old(self).wf(),
        ensures
            command_answered(*old(self), *final(self), ConnectionPhase::MapServer, answer),
            old(self).answered(Command::RequestItemEquip { item_index, equip_position }, answer, final(self)),
    ;

    /// Request to unequip an item.
    fn request_item_unequip(&mut self, item_index: InventoryIndex) -> (answer: Result<(), NotConnectedError>)
        requires
            old(self).wf(),
        ensures
            command_answered(*old(self), *final(self), ConnectionPhase::MapServer, answer),
            old(self).answered(Command::RequestItemUnequip { item_index }, answer, final(self)),
    ;

    /// Cast a skill on a specific entity.
    fn cast_skill(&mut self, skill_id: SkillId, skill_level: SkillLevel, entity_id: EntityId) -> (answer: Result<(), NotConnectedError>)
        requires
            old(self).wf(),
        ensures
            command_answered(*old(self), *final(self), ConnectionPhase::MapServer, answer),
            old(self).answered(Command::CastSkill { skill_id, skill_level, entity_id }, answer, final(self)),
    ;

    /// Cast a ground-targeted skill.
    fn cast_ground_skill(&mut self, skill_id: SkillId, skill_level: SkillLevel, target_position: TilePosition) -> (answer: Result<(), NotConnectedError>)
        requires
            old(self).wf(),
        ensures
            command_answered(*old(self), *final(self), ConnectionPhase::MapServer, answer),
            old(self).answered(Command::CastGroundSkill { skill_id, skill_level, target_position }, answer, final(self)),
    ;

    /// Start casting a channeling skill.
    fn cast_channeling_skill(&mut self, skill_id: SkillId, skill_level: SkillLevel, entity_id: EntityId) -> (answer: Result<(), NotConnectedError>)
        requires
            old(self).wf(),
        ensures
            command_answered(*old(self), *final(self), ConnectionPhase::MapServer, answer),
            old(self).answered(Command::CastChannelingSkill { skill_id, skill_level, entity_id }, answer, final(self)),
    ;

    /// Stop casting a channeling skill.
    fn stop_channeling_skill(&mut self, skill_id: SkillId) -> (answer: Result<(), NotConnectedError>)
        requires
            old(self).wf(),
        ensures
            command_answered(*old(self), *final(self), ConnectionPhase::MapServer, answer),
            old(self).answered(Command::StopChannelingSkill { skill_id }, answer, final(self)),
    ;

    /// Add a friend by name.
    fn add_friend(&mut self, name: String) -> (answer: Result<(), NotConnectedError>)
        requires
            old(self).wf(),
        ensures
            command_answered(*old(self), *final(self), ConnectionPhase::MapServer, answer),
            old(self).answered(Command::AddFriend { name }, answer, final(self)),
    ;

    /// Remove a friend.
    fn remove_friend(&mut self, account_id: AccountId, character_id: CharacterId) -> (answer: Result<(), NotConnectedError>)
        requires
            old(self).wf(),
        ensures
            command_answered(*old(self), *final(self), ConnectionPhase::MapServer, answer),
            old(self).answered(Command::RemoveFriend { account_id, character_id }, answer, final(self)),
    ;

    /// Reject a friend request.
    fn reject_friend_request(&mut self, account_id: AccountId, character_id: CharacterId) -> (answer: Result<(), NotConnectedError>)
        requires
            old(self).wf(),
        ensures
            command_answered(*old(self), *final(self), ConnectionPhase::MapServer, answer),
            old(self).answered(Command::RejectFriendRequest { account_id, character_id }, answer, final(self)),
    ;

    /// Accept a friend request.
    fn accept_friend_request(&mut self, account_id: AccountId, character_id: CharacterId) -> (answer: Result<(), NotConnectedError>)
        requires
            old(self).wf(),
        ensures
            command_answered(*old(self), *final(self), ConnectionPhase::MapServer, answer),
            old(self).answered(Command::AcceptFriendRequest { account_id, character_id }, answer, final(self)),
    ;

    /// Set hotkey data for a specific tab and slot.
    fn set_hotkey_data(&mut self, tab: HotbarTab, index: HotbarSlot, hotkey_data: HotkeyData) -> (answer: Result<(), NotConnectedError>)
        requires
            old(self).wf(),
        ensures
            command_answered(*old(self), *final(self), ConnectionPhase::MapServer, answer),
            old(self).answered(Command::SetHotkeyData { tab, index, hotkey_data }, answer, final(self)),
    ;

    /// Select whether to buy or sell from a shop.
    fn select_buy_or_sell(&mut self, shop_id: ShopId, buy_or_sell: BuyOrSellOption) -> (answer: Result<(), NotConnectedError>)
        requires
            old(self).wf(),
        ensures
            command_answered(*old(self), *final(self), ConnectionPhase::MapServer, answer),
            old(self).answered(Command::SelectBuyOrSell { shop_id, buy_or_sell }, answer, final(self)),
    ;

    /// Purchase items from a shop.
    fn purchase_items(&mut self, items: Vec<ShopItem<u32>>) -> (answer: Result<(), NotConnectedError>)
        requires
            old(self).wf(),
        ensures
            command_answered(*old(self), *final(self), ConnectionPhase::MapServer, answer),
            old(self).answered(Command::PurchaseItems { items }, answer, final(self)),
    ;

    /// Close the current shop.
    fn close_shop(&mut self) -> (answer: Result<(), NotConnectedError>)
        requires
            old(self).wf(),
        ensures
            command_answered(*old(self), *final(self), ConnectionPhase::MapServer, answer),
            old(self).answered(Command::CloseShop, answer, final(self)),
    ;

    /// Sell items to a shop.
    fn sell_items(&mut self, items: Vec<SoldItemInformation>) -> (answer: Result<(), NotConnectedError>)
        requires
            old(self).wf(),
        ensures
            command_answered(*old(self), *final(self), ConnectionPhase::MapServer, answer),
            old(self).answered(Command::SellItems { items }, answer, final(self)),
    ;

    /// Request to increase a stat.
    fn request_stat_up(&mut self, stat_type: StatUpType) -> (answer: Result<(), NotConnectedError>)
        requires
            old(self).wf(),
        ensures
            command_answered(*old(self), *final(self), ConnectionPhase::MapServer, answer),
            old(self).answered(Command::RequestStatUp { stat_type }, answer, final(self)),
    ;
}

} // verus!
