//! Implements an offline experience: a provider that answers the client
//! itself, without any server.

use vstd::prelude::*;
use vstd::string::*;

use crate::buffer::GameplayEventBuffer;
use crate::clock::{client_tick_of, now, tick_of};
use crate::command::Command;
use crate::event::{DisconnectReason, GameplayEvent};
use crate::items::ShopItem;
use crate::provider::{GameplayProvider, ProviderModel};
use crate::session::ConnectionPhase;
use crate::types::{CharacterServerLoginData, LoginServerLoginData, NotConnectedError, SupportedPacketVersion};
use crate::wire::{
    AccountId, BuyOrSellOption, CharacterId, CharacterInformation, CharacterServerInformation, EntityId,
    EquipPosition, HotbarSlot, HotbarTab, HotkeyData, InventoryIndex, ServerAddress, ServerEndpoint, Sex, ShopId,
    SkillId, SkillLevel, SoldItemInformation, StatUpType, TilePosition, WorldPosition,
};

verus! {

/// A "library" about general topics of the game like NPCs, Monsters, items,
/// skills etc.
#[derive(Debug, Clone, Copy, PartialEq, Eq, Structural)]
pub struct Library {}

impl Library {
    pub fn new() -> (library: Self)
        ensures
            library == (Library {  }),
    {
        Library {  }
    }
}

impl Default for Library {
    fn default() -> (library: Self)
        ensures
            library == (Library {  }),
    {
        Library::new()
    }
}

/// An offline experience for Korangar.
pub struct OfflineSystem {
    system_start: std::time::Instant,
    event_buffer: Vec<GameplayEvent>,
    connected_to_login_server: bool,
    connected_to_character_server: bool,
    connected_to_map_server: bool,
    library: Library,
}

/// Whether `server` is the one character server of the offline system.
pub open spec fn is_offline_server(server: CharacterServerInformation) -> bool {
    &&& server.server_ip.0@ == seq![0u8, 0u8, 0u8, 0u8]
    &&& server.server_port == 1234
    &&& server.server_name@ == "Korangar Offline"@
    &&& server.user_count == 0
    &&& server.server_type == 0
    &&& server.display_new == 0
}

/// Whether `event` is what a login to the offline system yields: its one
/// server, and an account without any identity.
pub open spec fn is_offline_login(event: GameplayEvent) -> bool {
    event matches GameplayEvent::LoginServerConnected { character_servers, login_data }
        && character_servers@.len() == 1 && is_offline_server(character_servers@[0]) && login_data == (
        LoginServerLoginData { account_id: AccountId(0), login_id1: 0, login_id2: 0, sex: Sex::Female })
}

/// Whether `character` is the one character of the offline system.
pub open spec fn is_offline_character(character: CharacterInformation) -> bool {
    &&& character.character_id == CharacterId(150000)
    &&& character.experience == 3447
    &&& character.money == 20000
    &&& character.job_experience == 44
    &&& character.job_level == 6
    &&& character.body_state == 0
    &&& character.health_state == 0
    &&& character.effect_state == 0
    &&& character.virtue == 0
    &&& character.honor == 0
    &&& character.stat_points == 1273
    &&& character.health_points == 1060
    &&& character.maximum_health_points == 1060
    &&& character.spell_points == 216
    &&& character.maximum_spell_points == 216
    &&& character.movement_speed == 150
    &&& character.job == 0
    &&& character.head == 0
    &&& character.body == 0
    &&& character.weapon == 1
    &&& character.base_level == 99
    &&& character.sp_point == 5
    &&& character.accessory == 0
    &&& character.shield == 0
    &&& character.accessory2 == 0
    &&& character.accessory3 == 0
    &&& character.head_palette == 0
    &&& character.body_palette == 0
    &&& character.name@ == "Sasami"@
    &&& character.strength == 99
    &&& character.agility == 99
    &&& character.vitality == 99
    &&& character.intelligence == 99
    &&& character.dexterity == 99
    &&& character.luck == 99
    &&& character.character_number == 0
    &&& character.hair_color == 0
    &&& character.b_is_changed_char == 1
    &&& character.map_name@ == "prontera.gat"@
    &&& character.deletion_reverse_date == 0
    &&& character.robe_palette == 0
    &&& character.character_slot_change_count == 0
    &&& character.character_name_change_count == 0
    &&& character.sex == Sex::Female
}

/// Whether `event` lists the one character of the offline system.
pub open spec fn is_offline_character_list(event: GameplayEvent) -> bool {
    event matches GameplayEvent::CharacterList { characters } && characters@.len() == 1 && is_offline_character(
        characters@[0],
    )
}

/// Whether `event` brings a tick that stands for some number of
/// milliseconds.
pub open spec fn is_offline_tick(event: GameplayEvent) -> bool {
    event matches GameplayEvent::UpdateClientTick { client_tick, received_at } && exists|milliseconds: u128|
        client_tick == #[trigger] tick_of(milliseconds)
}

impl OfflineSystem {
    /// The answer to a command that has no effect: it is accepted exactly if
    /// the offline system is connected to the command's server.
    fn accepted(&self, phase: ConnectionPhase) -> (answer: Result<(), NotConnectedError>)
        ensures
            answer is Err <==> !self.connected(phase),
    {
        let connected = match phase {
            ConnectionPhase::LoginServer => self.connected_to_login_server,
            ConnectionPhase::CharacterServer => self.connected_to_character_server,
            ConnectionPhase::MapServer => self.connected_to_map_server,
        };
        if connected {
            Ok(())
        } else {
            Err(NotConnectedError)
        }
    }

    /// An offline system that is connected to nothing, and an empty buffer
    /// to fetch its events with.
    pub fn new() -> (created: (Self, GameplayEventBuffer))
        ensures
            created.0.pending_events() == Seq::<GameplayEvent>::empty(),
            forall|phase: ConnectionPhase| !created.0.connected(phase),
            created.1@ == Seq::<GameplayEvent>::empty(),
    {
        (
            OfflineSystem {
                system_start: now(),
                event_buffer: Vec::new(),
                connected_to_login_server: false,
                connected_to_character_server: false,
                connected_to_map_server: false,
                library: Library::new(),
            },
            GameplayEventBuffer::new(),
        )
    }
}

impl ProviderModel for OfflineSystem {
    open spec fn wf(&self) -> bool {
        true
    }

    closed spec fn connected(&self, phase: ConnectionPhase) -> bool {
        match phase {
            ConnectionPhase::LoginServer => self.connected_to_login_server,
            ConnectionPhase::CharacterServer => self.connected_to_character_server,
            ConnectionPhase::MapServer => self.connected_to_map_server,
        }
    }

    closed spec fn pending_events(&self) -> Seq<GameplayEvent> {
        self.event_buffer@
    }

    /// The offline system lists its one character and tells the time. Every
    /// other command is accepted and has no effect: friends mean nothing to a
    /// client that plays alone, and the rest is left without effect.
    open spec fn answered(&self, command: Command, answer: Result<(), NotConnectedError>, after: &Self) -> bool {
        if !self.connected(command.spec_phase()) {
            answer is Err && *after == *self
        } else {
            answer is Ok && match command {
                Command::RequestCharacterList => after.pending_events().len() == self.pending_events().len() + 1
                    && is_offline_character_list(after.pending_events().last()),
                Command::RequestClientTick => after.pending_events().len() == self.pending_events().len() + 1
                    && is_offline_tick(after.pending_events().last()),
                _ => *after == *self,
            }
        }
    }
}

impl GameplayProvider for OfflineSystem {
    fn get_events(&mut self, events: &mut GameplayEventBuffer) {
        events.append(&mut self.event_buffer);
    }

    /// Connects at once: the offline system is its own login server.
    fn connect_to_login_server(
        &mut self,
        _packet_version: SupportedPacketVersion,
        _address: ServerEndpoint,
        _username: &str,
        _password: &str,
    )
        ensures
            final(self).connected(ConnectionPhase::LoginServer),
            final(self).pending_events().len() == old(self).pending_events().len() + 1,
            is_offline_login(final(self).pending_events().last()),
    {
        self.connected_to_login_server = true;

        let mut character_servers = Vec::new();
        character_servers.push(
            CharacterServerInformation::new(
                ServerAddress::new([0, 0, 0, 0]),
                1234,
                String::from_str("Korangar Offline"),
                0,
                0,
                0,
            ),
        );
        self.event_buffer.push(
            GameplayEvent::LoginServerConnected {
                character_servers,
                login_data: LoginServerLoginData {
                    account_id: AccountId::new(0),
                    login_id1: 0,
                    login_id2: 0,
                    sex: Sex::Female,
                },
            },
        );
    }

    /// Connects at once: the offline system is its own character server.
    fn connect_to_character_server(
        &mut self,
        _packet_version: SupportedPacketVersion,
        _login_data: &LoginServerLoginData,
        _server: CharacterServerInformation,
    )
        ensures
            final(self).connected(ConnectionPhase::CharacterServer),
            final(self).pending_events() == old(self).pending_events().push(
                GameplayEvent::CharacterServerConnected { normal_slot_count: 15 },
            ),
    {
        self.connected_to_character_server = true;

        self.event_buffer.push(GameplayEvent::CharacterServerConnected { normal_slot_count: 15 });
    }

    /// The offline system has no map server: the attempt is reported as
    /// failed, and nothing else changes.
    fn connect_to_map_server(
        &mut self,
        _packet_version: SupportedPacketVersion,
        _login_server_login_data: &LoginServerLoginData,
        _character_server_login_data: CharacterServerLoginData,
    )
        ensures
            forall|phase: ConnectionPhase| #[trigger] final(self).connected(phase) == old(self).connected(phase),
            final(self).pending_events() == old(self).pending_events().push(
                GameplayEvent::MapServerDisconnected { reason: DisconnectReason::FailedToConnect },
            ),
    {
        self.event_buffer.push(GameplayEvent::MapServerDisconnected { reason: DisconnectReason::FailedToConnect });
    }

    fn disconnect_from_login_server(&mut self)
        ensures
            final(self).pending_events() == old(self).pending_events().push(
                GameplayEvent::AccountId { account_id: AccountId(2000000) },
            ).push(GameplayEvent::LoginServerDisconnected { reason: DisconnectReason::ClosedByClient }),
    {
        self.connected_to_login_server = false;

        self.event_buffer.push(GameplayEvent::AccountId { account_id: AccountId(2000000) });

        self.event_buffer.push(GameplayEvent::LoginServerDisconnected { reason: DisconnectReason::ClosedByClient });
    }

    fn disconnect_from_character_server(&mut self)
        ensures
            final(self).pending_events() == old(self).pending_events().push(
                GameplayEvent::CharacterServerDisconnected { reason: DisconnectReason::ClosedByClient },
            ),
    {
        self.connected_to_character_server = false;

        self.event_buffer.push(
            GameplayEvent::CharacterServerDisconnected { reason: DisconnectReason::ClosedByClient },
        );
    }

    fn disconnect_from_map_server(&mut self)
        ensures
            final(self).pending_events() == old(self).pending_events().push(
                GameplayEvent::MapServerDisconnected { reason: DisconnectReason::ClosedByClient },
            ),
    {
        self.connected_to_map_server = false;

        self.event_buffer.push(GameplayEvent::MapServerDisconnected { reason: DisconnectReason::ClosedByClient });
    }

    fn is_login_server_connected(&self) -> (connected: bool) {
        self.connected_to_login_server
    }

    fn is_character_server_connected(&self) -> (connected: bool) {
        self.connected_to_character_server
    }

    fn is_map_server_connected(&self) -> (connected: bool) {
        self.connected_to_map_server
    }

    /// Lists the one character of the offline system.
    fn request_character_list(&mut self) -> (answer: Result<(), NotConnectedError>)
        ensures
            answer is Ok ==> final(self).pending_events().len() == old(self).pending_events().len() + 1
                && is_offline_character_list(final(self).pending_events().last()),
    {
        if !self.connected_to_character_server {
            return Err(NotConnectedError);
        }
        let mut characters = Vec::new();
        characters.push(
            CharacterInformation {
                character_id: CharacterId(150000),
                experience: 3447,
                money: 20000,
                job_experience: 44,
                job_level: 6,
                body_state: 0,
                health_state: 0,
                effect_state: 0,
                virtue: 0,
                honor: 0,
                stat_points: 1273,
                health_points: 1060,
                maximum_health_points: 1060,
                spell_points: 216,
                maximum_spell_points: 216,
                movement_speed: 150,
                job: 0,
                head: 0,
                body: 0,
                weapon: 1,
                base_level: 99,
                sp_point: 5,
                accessory: 0,
                shield: 0,
                accessory2: 0,
                accessory3: 0,
                head_palette: 0,
                body_palette: 0,
                name: String::from_str("Sasami"),
                strength: 99,
                agility: 99,
                vitality: 99,
                intelligence: 99,
                dexterity: 99,
                luck: 99,
                character_number: 0,
                hair_color: 0,
                b_is_changed_char: 1,
                map_name: String::from_str("prontera.gat"),
                deletion_reverse_date: 0,
                robe_palette: 0,
                character_slot_change_count: 0,
                character_name_change_count: 0,
                sex: Sex::Female,
            },
        );
        self.event_buffer.push(GameplayEvent::CharacterList { characters });

        Ok(())
    }

    /// Answers with the milliseconds since the offline system was created,
    /// as a tick.
    fn request_client_tick(&mut self) -> (answer: Result<(), NotConnectedError>)
        ensures
            answer is Ok ==> final(self).pending_events().len() == old(self).pending_events().len() + 1
                && is_offline_tick(final(self).pending_events().last()),
    {
        if !self.connected_to_map_server {
            return Err(NotConnectedError);
        }
        let now = now();
        let milliseconds = now.saturating_duration_since(self.system_start).as_millis();
        let client_tick = client_tick_of(milliseconds);

        self.event_buffer.push(GameplayEvent::UpdateClientTick { client_tick, received_at: now });

        Ok(())
    }

    /// Left without effect by the offline system.
    fn select_character(&mut self, _character_slot: usize) -> (answer: Result<(), NotConnectedError>)
        ensures
            *final(self) == *old(self),
    {
        self.accepted(ConnectionPhase::CharacterServer)
    }

    /// Left without effect by the offline system.
    fn create_character(&mut self, _slot: usize, _name: String) -> (answer: Result<(), NotConnectedError>)
        ensures
            *final(self) == *old(self),
    {
        self.accepted(ConnectionPhase::CharacterServer)
    }

    /// Left without effect by the offline system.
    fn delete_character(&mut self, _character_id: CharacterId) -> (answer: Result<(), NotConnectedError>)
        ensures
            *final(self) == *old(self),
    {
        self.accepted(ConnectionPhase::CharacterServer)
    }

    /// Left without effect by the offline system.
    fn switch_character_slot(&mut self, _origin_slot: usize, _destination_slot: usize) -> (answer: Result<(), NotConnectedError>)
        ensures
            *final(self) == *old(self),
    {
        self.accepted(ConnectionPhase::CharacterServer)
    }

    /// Left without effect by the offline system.
    fn map_loaded(&mut self) -> (answer: Result<(), NotConnectedError>)
        ensures
            *final(self) == *old(self),
    {
        self.accepted(ConnectionPhase::MapServer)
    }

    /// Left without effect by the offline system.
    fn respawn(&mut self) -> (answer: Result<(), NotConnectedError>)
        ensures
            *final(self) == *old(self),
    {
        self.accepted(ConnectionPhase::MapServer)
    }

    /// Left without effect by the offline system.
    fn log_out(&mut self) -> (answer: Result<(), NotConnectedError>)
        ensures
            *final(self) == *old(self),
    {
        self.accepted(ConnectionPhase::MapServer)
    }

    /// Left without effect by the offline system.
    fn player_move(&mut self, _position: WorldPosition) -> (answer: Result<(), NotConnectedError>)
        ensures
            *final(self) == *old(self),
    {
        self.accepted(ConnectionPhase::MapServer)
    }

    /// Left without effect by the offline system.
    fn warp_to_map(&mut self, _map_name: String, _position: TilePosition) -> (answer: Result<(), NotConnectedError>)
        ensures
            *final(self) == *old(self),
    {
        self.accepted(ConnectionPhase::MapServer)
    }

    /// Left without effect by the offline system.
    fn entity_details(&mut self, _entity_id: EntityId) -> (answer: Result<(), NotConnectedError>)
        ensures
            *final(self) == *old(self),
    {
        self.accepted(ConnectionPhase::MapServer)
    }

    /// Left without effect by the offline system.
    fn player_attack(&mut self, _entity_id: EntityId) -> (answer: Result<(), NotConnectedError>)
        ensures
            *final(self) == *old(self),
    {
        self.accepted(ConnectionPhase::MapServer)
    }

    /// Left without effect by the offline system.
    fn send_chat_message(&mut self, _player_name: &str, _text: &str) -> (answer: Result<(), NotConnectedError>)
        ensures
            *final(self) == *old(self),
    {
        self.accepted(ConnectionPhase::MapServer)
    }

    /// Left without effect by the offline system.
    fn start_dialog(&mut self, _npc_id: EntityId) -> (answer: Result<(), NotConnectedError>)
        ensures
            *final(self) == *old(self),
    {
        self.accepted(ConnectionPhase::MapServer)
    }

    /// Left without effect by the offline system.
    fn next_dialog(&mut self, _npc_id: EntityId) -> (answer: Result<(), NotConnectedError>)
        ensures
            *final(self) == *old(self),
    {
        self.accepted(ConnectionPhase::MapServer)
    }

    /// Left without effect by the offline system.
    fn close_dialog(&mut self, _npc_id: EntityId) -> (answer: Result<(), NotConnectedError>)
        ensures
            *final(self) == *old(self),
    {
        self.accepted(ConnectionPhase::MapServer)
    }

    /// Left without effect by the offline system.
    fn choose_dialog_option(&mut self, _npc_id: EntityId, _option: i8) -> (answer: Result<(), NotConnectedError>)
        ensures
            *final(self) == *old(self),
    {
        self.accepted(ConnectionPhase::MapServer)
    }

    /// Left without effect by the offline system.
    fn request_item_equip(&mut self, _item_index: InventoryIndex, _equip_position: EquipPosition) -> (answer: Result<(), NotConnectedError>)
        ensures
            *final(self) == *old(self),
    {
        self.accepted(ConnectionPhase::MapServer)
    }

    /// Left without effect by the offline system.
    fn request_item_unequip(&mut self, _item_index: InventoryIndex) -> (answer: Result<(), NotConnectedError>)
        ensures
            *final(self) == *old(self),
    {
        self.accepted(ConnectionPhase::MapServer)
    }

    /// Left without effect by the offline system.
    fn cast_skill(&mut self, _skill_id: SkillId, _skill_level: SkillLevel, _entity_id: EntityId) -> (answer: Result<(), NotConnectedError>)
        ensures
            *final(self) == *old(self),
    {
        self.accepted(ConnectionPhase::MapServer)
    }

    /// Left without effect by the offline system.
    fn cast_ground_skill(&mut self, _skill_id: SkillId, _skill_level: SkillLevel, _target_position: TilePosition) -> (answer: Result<(), NotConnectedError>)
        ensures
            *final(self) == *old(self),
    {
        self.accepted(ConnectionPhase::MapServer)
    }

    /// Left without effect by the offline system.
    fn cast_channeling_skill(&mut self, _skill_id: SkillId, _skill_level: SkillLevel, _entity_id: EntityId) -> (answer: Result<(), NotConnectedError>)
        ensures
            *final(self) == *old(self),
    {
        self.accepted(ConnectionPhase::MapServer)
    }

    /// Left without effect by the offline system.
    fn stop_channeling_skill(&mut self, _skill_id: SkillId) -> (answer: Result<(), NotConnectedError>)
        ensures
            *final(self) == *old(self),
    {
        self.accepted(ConnectionPhase::MapServer)
    }

    /// Without effect: friends mean nothing to a client that plays alone.
    fn add_friend(&mut self, _name: String) -> (answer: Result<(), NotConnectedError>)
        ensures
            *final(self) == *old(self),
    {
        self.accepted(ConnectionPhase::MapServer)
    }

    /// Without effect: friends mean nothing to a client that plays alone.
    fn remove_friend(&mut self, _account_id: AccountId, _character_id: CharacterId) -> (answer: Result<(), NotConnectedError>)
        ensures
            *final(self) == *old(self),
    {
        self.accepted(ConnectionPhase::MapServer)
    }

    /// Without effect: friends mean nothing to a client that plays alone.
    fn reject_friend_request(&mut self, _account_id: AccountId, _character_id: CharacterId) -> (answer: Result<(), NotConnectedError>)
        ensures
            *final(self) == *old(self),
    {
        self.accepted(ConnectionPhase::MapServer)
    }

    /// Without effect: friends mean nothing to a client that plays alone.
    fn accept_friend_request(&mut self, _account_id: AccountId, _character_id: CharacterId) -> (answer: Result<(), NotConnectedError>)
        ensures
            *final(self) == *old(self),
    {
        self.accepted(ConnectionPhase::MapServer)
    }

    /// Left without effect by the offline system.
    fn set_hotkey_data(&mut self, _tab: HotbarTab, _index: HotbarSlot, _hotkey_data: HotkeyData) -> (answer: Result<(), NotConnectedError>)
        ensures
            *final(self) == *old(self),
    {
        self.accepted(ConnectionPhase::MapServer)
    }

    /// Left without effect by the offline system.
    fn select_buy_or_sell(&mut self, _shop_id: ShopId, _buy_or_sell: BuyOrSellOption) -> (answer: Result<(), NotConnectedError>)
        ensures
            *final(self) == *old(self),
    {
        self.accepted(ConnectionPhase::MapServer)
    }

    /// Left without effect by the offline system.
    fn purchase_items(&mut self, _items: Vec<ShopItem<u32>>) -> (answer: Result<(), NotConnectedError>)
        ensures
            *final(self) == *old(self),
    {
        self.accepted(ConnectionPhase::MapServer)
    }

    /// Left without effect by the offline system.
    fn close_shop(&mut self) -> (answer: Result<(), NotConnectedError>)
        ensures
            *final(self) == *old(self),
    {
        self.accepted(ConnectionPhase::MapServer)
    }

    /// Left without effect by the offline system.
    fn sell_items(&mut self, _items: Vec<SoldItemInformation>) -> (answer: Result<(), NotConnectedError>)
        ensures
            *final(self) == *old(self),
    {
        self.accepted(ConnectionPhase::MapServer)
    }

    /// Left without effect by the offline system.
    fn request_stat_up(&mut self, _stat_type: StatUpType) -> (answer: Result<(), NotConnectedError>)
        ensures
            *final(self) == *old(self),
    {
        self.accepted(ConnectionPhase::MapServer)
    }
}

} // verus!
