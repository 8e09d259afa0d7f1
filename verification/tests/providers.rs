use korangar_gameplay::character::CharacterServerPacket;
use korangar_gameplay::clock::client_tick_of;
use korangar_gameplay::login::LoginServerPacket;
use korangar_gameplay::map::MapServerPacket;
use korangar_gameplay::wire::{
    AccountId, BuyOrSellOption, CharacterId, CharacterInformation, CharacterServerInformation, ClientTick, EntityId,
    EquipPosition, HotbarSlot, HotbarTab, HotkeyData, InventoryIndex, ItemId, LoginFailedReason2, Price,
    ServerAddress, ServerEndpoint, Sex, ShopId, SkillId, SkillLevel, SoldItemInformation, StatUpType, TilePosition,
    WorldPosition, Direction, RegularItemInformation, RegularItemFlags,
};
use korangar_gameplay::{
    CharacterServerLoginData, Command, ConnectionPhase, ConnectionState, DisconnectReason, GameplayEvent,
    GameplayEventBuffer, GameplayProvider, InventoryItem, InventoryItemDetails, ItemQuantity, LoginServerLoginData,
    NetworkProvider, NetworkTaskError, NoMetadata, NotConnectedError, OfflineSystem, PacketKind, ServerPacket,
    ShopItem, SupportedPacketVersion, TransportChange, TransportRequest, UnifiedLoginFailedReason,
};

fn endpoint(port: u16) -> ServerEndpoint {
    ServerEndpoint { address: ServerAddress([127, 0, 0, 1]), port }
}

fn login_data() -> LoginServerLoginData {
    LoginServerLoginData { account_id: AccountId(2000000), login_id1: 11, login_id2: 22, sex: Sex::Male }
}

fn character_server() -> CharacterServerInformation {
    CharacterServerInformation::new(ServerAddress::new([10, 0, 0, 2]), 6121, "Server".to_string(), 5, 0, 0)
}

fn events<P: GameplayProvider>(provider: &mut P) -> Vec<GameplayEvent> {
    let mut buffer = GameplayEventBuffer::new();
    provider.get_events(&mut buffer);
    buffer.drain()
}

fn position() -> WorldPosition {
    WorldPosition { x: 100, y: 120, direction: Direction::S }
}

/// Calls every command once and returns the answers with the phase each command is for.
fn every_answer<P: GameplayProvider>(provider: &mut P) -> Vec<(ConnectionPhase, Result<(), NotConnectedError>)> {
    let character = ConnectionPhase::CharacterServer;
    let map = ConnectionPhase::MapServer;
    vec![
        (character, provider.request_character_list()),
        (character, provider.select_character(0)),
        (character, provider.create_character(1, "Name".to_string())),
        (character, provider.delete_character(CharacterId(150000))),
        (character, provider.switch_character_slot(0, 1)),
        (map, provider.map_loaded()),
        (map, provider.request_client_tick()),
        (map, provider.respawn()),
        (map, provider.log_out()),
        (map, provider.player_move(position())),
        (map, provider.warp_to_map("prontera".to_string(), TilePosition { x: 1, y: 2 })),
        (map, provider.entity_details(EntityId(1))),
        (map, provider.player_attack(EntityId(1))),
        (map, provider.send_chat_message("Sasami", "hello")),
        (map, provider.start_dialog(EntityId(2))),
        (map, provider.next_dialog(EntityId(2))),
        (map, provider.close_dialog(EntityId(2))),
        (map, provider.choose_dialog_option(EntityId(2), 1)),
        (map, provider.request_item_equip(InventoryIndex(3), EquipPosition { bits: 2 })),
        (map, provider.request_item_unequip(InventoryIndex(3))),
        (map, provider.cast_skill(SkillId(28), SkillLevel(10), EntityId(1))),
        (map, provider.cast_ground_skill(SkillId(12), SkillLevel(3), TilePosition { x: 5, y: 5 })),
        (map, provider.cast_channeling_skill(SkillId(8), SkillLevel(1), EntityId(1))),
        (map, provider.stop_channeling_skill(SkillId(8))),
        (map, provider.add_friend("Lucy".to_string())),
        (map, provider.remove_friend(AccountId(1), CharacterId(2))),
        (map, provider.reject_friend_request(AccountId(1), CharacterId(2))),
        (map, provider.accept_friend_request(AccountId(1), CharacterId(2))),
        (map, provider.set_hotkey_data(HotbarTab(0), HotbarSlot(1), HotkeyData::unbound())),
        (map, provider.select_buy_or_sell(ShopId(4), BuyOrSellOption::Buy)),
        (map, provider.purchase_items(vec![])),
        (map, provider.close_shop()),
        (map, provider.sell_items(vec![SoldItemInformation { inventory_index: InventoryIndex(1), amount: 2 }])),
        (map, provider.request_stat_up(StatUpType::Luck)),
    ]
}

fn connected_network() -> NetworkProvider {
    let mut provider = NetworkProvider::new();
    provider.connect_to_login_server(SupportedPacketVersion::_20220406, endpoint(6900), "user", "secret");
    provider.transport_changed(ConnectionPhase::LoginServer, TransportChange::Established);
    provider.connect_to_character_server(SupportedPacketVersion::_20220406, &login_data(), character_server());
    provider.transport_changed(ConnectionPhase::CharacterServer, TransportChange::Established);
    provider.connect_to_map_server(
        SupportedPacketVersion::_20220406,
        &login_data(),
        CharacterServerLoginData { server_ip: ServerAddress([10, 0, 0, 3]), server_port: 5121, character_id: CharacterId(150000) },
    );
    provider.transport_changed(ConnectionPhase::MapServer, TransportChange::Established);
    provider.take_requests();
    provider
}

#[test]
fn network_login_with_valid_credentials_yields_connected() {
    let mut provider = NetworkProvider::new();
    provider.connect_to_login_server(SupportedPacketVersion::_20220406, endpoint(6900), "user", "secret");

    assert_eq!(provider.state(ConnectionPhase::LoginServer), ConnectionState::Connecting);
    assert!(!provider.is_login_server_connected());
    assert_eq!(
        provider.take_requests(),
        vec![
            TransportRequest::Open {
                phase: ConnectionPhase::LoginServer,
                endpoint: endpoint(6900),
                packet_version: SupportedPacketVersion::_20220406,
            },
            TransportRequest::Send {
                phase: ConnectionPhase::LoginServer,
                command: Command::Login { username: "user".to_string(), password: "secret".to_string() },
            },
        ]
    );
    assert_eq!(events(&mut provider), vec![]);

    provider.transport_changed(ConnectionPhase::LoginServer, TransportChange::Established);
    assert!(provider.is_login_server_connected());
    assert_eq!(events(&mut provider), vec![]);

    provider.packet_received(ServerPacket::Login(LoginServerPacket::LoginServerLoginSuccessPacket {
        character_server_information: vec![character_server()],
        account_id: AccountId(2000000),
        login_id1: 11,
        login_id2: 22,
        sex: Sex::Male,
    }));
    assert_eq!(
        events(&mut provider),
        vec![GameplayEvent::LoginServerConnected { character_servers: vec![character_server()], login_data: login_data() }]
    );
    assert_eq!(events(&mut provider), vec![]);
}

#[test]
fn network_login_with_incorrect_password_yields_the_failure() {
    let mut provider = NetworkProvider::new();
    provider.connect_to_login_server(SupportedPacketVersion::_20220406, endpoint(6900), "user", "wrong");
    provider.transport_changed(ConnectionPhase::LoginServer, TransportChange::Established);
    provider.packet_received(ServerPacket::Login(LoginServerPacket::LoginFailedPacket2 {
        reason: LoginFailedReason2::IncorrectPassword,
    }));
    assert_eq!(
        events(&mut provider),
        vec![GameplayEvent::LoginServerConnectionFailed {
            reason: UnifiedLoginFailedReason::IncorrectPassword,
            message: "Incorrect password",
        }]
    );
}

#[test]
fn offline_login_yields_connected() {
    let (mut provider, buffer) = OfflineSystem::new();
    assert!(buffer.is_empty());
    assert!(!provider.is_login_server_connected());

    provider.connect_to_login_server(SupportedPacketVersion::_20220406, endpoint(6900), "user", "secret");
    assert!(provider.is_login_server_connected());
    assert_eq!(
        events(&mut provider),
        vec![GameplayEvent::LoginServerConnected {
            character_servers: vec![CharacterServerInformation {
                server_ip: ServerAddress([0, 0, 0, 0]),
                server_port: 1234,
                server_name: "Korangar Offline".to_string(),
                user_count: 0,
                server_type: 0,
                display_new: 0,
            }],
            login_data: LoginServerLoginData { account_id: AccountId(0), login_id1: 0, login_id2: 0, sex: Sex::Female },
        }]
    );
    assert_eq!(events(&mut provider), vec![]);
}

#[test]
fn network_commands_before_connected_fail_without_effect() {
    let mut provider = NetworkProvider::new();
    for (_, answer) in every_answer(&mut provider) {
        assert_eq!(answer, Err(NotConnectedError));
    }
    assert_eq!(provider.take_requests(), vec![]);
    assert_eq!(events(&mut provider), vec![]);

    // Connecting is not yet connected.
    provider.connect_to_character_server(SupportedPacketVersion::_20220406, &login_data(), character_server());
    provider.connect_to_map_server(
        SupportedPacketVersion::_20220406,
        &login_data(),
        CharacterServerLoginData { server_ip: ServerAddress([10, 0, 0, 3]), server_port: 5121, character_id: CharacterId(1) },
    );
    assert_eq!(provider.take_requests().len(), 4);
    for (_, answer) in every_answer(&mut provider) {
        assert_eq!(answer, Err(NotConnectedError));
    }
    assert_eq!(provider.take_requests(), vec![]);
    assert_eq!(events(&mut provider), vec![]);
    assert!(!provider.is_character_server_connected());
    assert!(!provider.is_map_server_connected());
}

#[test]
fn network_commands_depend_on_their_own_phase_only() {
    let mut provider = NetworkProvider::new();
    provider.connect_to_character_server(SupportedPacketVersion::_20220406, &login_data(), character_server());
    provider.transport_changed(ConnectionPhase::CharacterServer, TransportChange::Established);
    provider.take_requests();

    for (phase, answer) in every_answer(&mut provider) {
        match phase {
            ConnectionPhase::CharacterServer => assert_eq!(answer, Ok(())),
            _ => assert_eq!(answer, Err(NotConnectedError)),
        }
    }
    let requests = provider.take_requests();
    assert_eq!(requests.len(), 5);
    for request in requests {
        match request {
            TransportRequest::Send { phase, .. } => assert_eq!(phase, ConnectionPhase::CharacterServer),
            other => panic!("unexpected request {:?}", other),
        }
    }
}

#[test]
fn network_commands_are_queued_in_order_when_connected() {
    let mut provider = connected_network();
    assert!(provider.is_login_server_connected());
    assert!(provider.is_character_server_connected());
    assert!(provider.is_map_server_connected());

    assert_eq!(provider.select_character(2), Ok(()));
    assert_eq!(provider.player_move(position()), Ok(()));
    assert_eq!(provider.send_chat_message("Sasami", "hello"), Ok(()));
    assert_eq!(
        provider.purchase_items(vec![ShopItem {
            metadata: 3u32,
            item_id: ItemId(501),
            item_type: 0,
            price: Price(50),
            quantity: ItemQuantity::Infinite,
            weight: 0,
            location: 1,
        }]),
        Ok(())
    );
    assert_eq!(provider.request_stat_up(StatUpType::Agility), Ok(()));

    assert_eq!(
        provider.take_requests(),
        vec![
            TransportRequest::Send {
                phase: ConnectionPhase::CharacterServer,
                command: Command::SelectCharacter { character_slot: 2 },
            },
            TransportRequest::Send { phase: ConnectionPhase::MapServer, command: Command::PlayerMove { position: position() } },
            TransportRequest::Send {
                phase: ConnectionPhase::MapServer,
                command: Command::SendChatMessage { player_name: "Sasami".to_string(), text: "hello".to_string() },
            },
            TransportRequest::Send {
                phase: ConnectionPhase::MapServer,
                command: Command::PurchaseItems {
                    items: vec![ShopItem {
                        metadata: 3u32,
                        item_id: ItemId(501),
                        item_type: 0,
                        price: Price(50),
                        quantity: ItemQuantity::Infinite,
                        weight: 0,
                        location: 1,
                    }],
                },
            },
            TransportRequest::Send {
                phase: ConnectionPhase::MapServer,
                command: Command::RequestStatUp { stat_type: StatUpType::Agility },
            },
        ]
    );
    assert_eq!(provider.take_requests(), vec![]);
    for (_, answer) in every_answer(&mut provider) {
        assert_eq!(answer, Ok(()));
    }
    assert_eq!(provider.take_requests().len(), 34);
    assert_eq!(events(&mut provider), vec![]);
}

#[test]
fn network_greets_each_server_with_what_the_last_one_gave() {
    let mut provider = NetworkProvider::new();
    provider.connect_to_character_server(SupportedPacketVersion::_20220406, &login_data(), character_server());
    provider.connect_to_map_server(
        SupportedPacketVersion::_20220406,
        &login_data(),
        CharacterServerLoginData { server_ip: ServerAddress([10, 0, 0, 3]), server_port: 5121, character_id: CharacterId(150000) },
    );
    assert_eq!(
        provider.take_requests(),
        vec![
            TransportRequest::Open {
                phase: ConnectionPhase::CharacterServer,
                endpoint: ServerEndpoint { address: ServerAddress([10, 0, 0, 2]), port: 6121 },
                packet_version: SupportedPacketVersion::_20220406,
            },
            TransportRequest::Send {
                phase: ConnectionPhase::CharacterServer,
                command: Command::CharacterLogin { login_data: login_data() },
            },
            TransportRequest::Open {
                phase: ConnectionPhase::MapServer,
                endpoint: ServerEndpoint { address: ServerAddress([10, 0, 0, 3]), port: 5121 },
                packet_version: SupportedPacketVersion::_20220406,
            },
            TransportRequest::Send {
                phase: ConnectionPhase::MapServer,
                command: Command::MapLogin { login_data: login_data(), character_id: CharacterId(150000) },
            },
        ]
    );
}

#[test]
fn network_connect_with_a_live_session_changes_nothing() {
    let mut provider = NetworkProvider::new();
    provider.connect_to_login_server(SupportedPacketVersion::_20220406, endpoint(6900), "user", "secret");
    provider.take_requests();
    provider.connect_to_login_server(SupportedPacketVersion::_20220406, endpoint(6901), "other", "secret");
    assert_eq!(provider.take_requests(), vec![]);
    assert_eq!(provider.state(ConnectionPhase::LoginServer), ConnectionState::Connecting);

    provider.transport_changed(ConnectionPhase::LoginServer, TransportChange::Established);
    provider.connect_to_login_server(SupportedPacketVersion::_20220406, endpoint(6901), "other", "secret");
    assert_eq!(provider.take_requests(), vec![]);
    assert_eq!(provider.state(ConnectionPhase::LoginServer), ConnectionState::Connected);
}

#[test]
fn network_failure_to_connect_is_reported_once() {
    let mut provider = NetworkProvider::new();
    provider.connect_to_login_server(SupportedPacketVersion::_20220406, endpoint(6900), "user", "secret");
    provider.transport_changed(ConnectionPhase::LoginServer, TransportChange::Failed(NetworkTaskError::FailedToConnect));
    assert_eq!(provider.state(ConnectionPhase::LoginServer), ConnectionState::Disconnected);
    provider.transport_changed(ConnectionPhase::LoginServer, TransportChange::Failed(NetworkTaskError::FailedToConnect));
    provider.transport_changed(ConnectionPhase::LoginServer, TransportChange::Closed);
    assert_eq!(
        events(&mut provider),
        vec![GameplayEvent::LoginServerDisconnected { reason: DisconnectReason::FailedToConnect }]
    );
    assert_eq!(provider.state(ConnectionPhase::LoginServer), ConnectionState::Disconnected);
}

#[test]
fn network_broken_connection_is_reported_once() {
    let mut provider = connected_network();
    provider.transport_changed(ConnectionPhase::MapServer, TransportChange::Failed(NetworkTaskError::ConnectionClosed));
    provider.transport_changed(ConnectionPhase::CharacterServer, TransportChange::Closed);
    assert_eq!(
        events(&mut provider),
        vec![
            GameplayEvent::MapServerDisconnected { reason: DisconnectReason::ConnectionClosed },
            GameplayEvent::CharacterServerDisconnected { reason: DisconnectReason::ConnectionClosed },
        ]
    );
    assert!(provider.is_login_server_connected());
    assert!(!provider.is_character_server_connected());
    assert!(!provider.is_map_server_connected());
    assert_eq!(provider.player_move(position()), Err(NotConnectedError));
    assert_eq!(provider.take_requests(), vec![]);
}

#[test]
fn network_disconnect_closes_and_reports_closed_by_client() {
    let mut provider = connected_network();
    provider.disconnect_from_map_server();
    assert_eq!(provider.state(ConnectionPhase::MapServer), ConnectionState::Closing);
    assert!(!provider.is_map_server_connected());
    assert_eq!(provider.take_requests(), vec![TransportRequest::Close { phase: ConnectionPhase::MapServer }]);
    assert_eq!(provider.log_out(), Err(NotConnectedError));
    assert_eq!(events(&mut provider), vec![]);

    provider.disconnect_from_map_server();
    assert_eq!(provider.take_requests(), vec![]);

    provider.transport_changed(ConnectionPhase::MapServer, TransportChange::Closed);
    assert_eq!(provider.state(ConnectionPhase::MapServer), ConnectionState::Disconnected);
    assert_eq!(
        events(&mut provider),
        vec![GameplayEvent::MapServerDisconnected { reason: DisconnectReason::ClosedByClient }]
    );

    provider.disconnect_from_login_server();
    provider.disconnect_from_character_server();
    provider.transport_changed(ConnectionPhase::LoginServer, TransportChange::Failed(NetworkTaskError::ConnectionClosed));
    provider.transport_changed(ConnectionPhase::CharacterServer, TransportChange::Closed);
    assert_eq!(
        events(&mut provider),
        vec![
            GameplayEvent::LoginServerDisconnected { reason: DisconnectReason::ClosedByClient },
            GameplayEvent::CharacterServerDisconnected { reason: DisconnectReason::ClosedByClient },
        ]
    );
}

#[test]
fn network_disconnect_without_a_session_does_nothing() {
    let mut provider = NetworkProvider::new();
    provider.disconnect_from_login_server();
    provider.disconnect_from_character_server();
    provider.disconnect_from_map_server();
    assert_eq!(provider.take_requests(), vec![]);
    assert_eq!(events(&mut provider), vec![]);
    assert_eq!(provider.state(ConnectionPhase::LoginServer), ConnectionState::Disconnected);
}

#[test]
fn network_packets_outside_a_connected_session_are_dropped() {
    let mut provider = NetworkProvider::new();
    provider.packet_received(ServerPacket::MapServer(MapServerPacket::BroadcastMessagePacket { message: "x".to_string() }));
    provider.connect_to_map_server(
        SupportedPacketVersion::_20220406,
        &login_data(),
        CharacterServerLoginData { server_ip: ServerAddress([10, 0, 0, 3]), server_port: 5121, character_id: CharacterId(1) },
    );
    provider.packet_received(ServerPacket::MapServer(MapServerPacket::BroadcastMessagePacket { message: "x".to_string() }));
    assert_eq!(events(&mut provider), vec![]);
}

#[test]
fn network_packets_without_a_handler_are_dropped() {
    let mut provider = connected_network();
    provider.packet_received(ServerPacket::MapServer(MapServerPacket::Other(PacketKind::QuestListPacket)));
    provider.packet_received(ServerPacket::MapServer(MapServerPacket::Other(PacketKind::LoginPincodePacket)));
    provider.packet_received(ServerPacket::Character(CharacterServerPacket::Other(PacketKind::Packet0b18)));
    provider.packet_received(ServerPacket::Character(CharacterServerPacket::Other(PacketKind::QuestListPacket)));
    assert_eq!(events(&mut provider), vec![]);
}

#[test]
fn network_events_keep_the_order_in_which_packets_arrived() {
    let mut provider = connected_network();
    provider.packet_received(ServerPacket::MapServer(MapServerPacket::ResurrectionPacket { entity_id: EntityId(1) }));
    provider.packet_received(ServerPacket::Character(CharacterServerPacket::CharacterDeletionSuccessPacket));
    provider.packet_received(ServerPacket::MapServer(MapServerPacket::ResurrectionPacket { entity_id: EntityId(2) }));
    assert_eq!(
        events(&mut provider),
        vec![
            GameplayEvent::ResurrectPlayer { entity_id: EntityId(1) },
            GameplayEvent::CharacterDeleted,
            GameplayEvent::ResurrectPlayer { entity_id: EntityId(2) },
        ]
    );
    provider.packet_received(ServerPacket::MapServer(MapServerPacket::ResurrectionPacket { entity_id: EntityId(3) }));
    assert_eq!(events(&mut provider), vec![GameplayEvent::ResurrectPlayer { entity_id: EntityId(3) }]);
    assert_eq!(events(&mut provider), vec![]);
}

#[test]
fn network_events_are_added_behind_what_the_buffer_holds() {
    let mut provider = connected_network();
    provider.packet_received(ServerPacket::MapServer(MapServerPacket::ResurrectionPacket { entity_id: EntityId(1) }));
    let mut buffer = GameplayEventBuffer::from(GameplayEvent::LoggedOut);
    provider.get_events(&mut buffer);
    assert_eq!(buffer.drain(), vec![GameplayEvent::LoggedOut, GameplayEvent::ResurrectPlayer { entity_id: EntityId(1) }]);
}

fn item_information() -> RegularItemInformation {
    RegularItemInformation {
        index: InventoryIndex(1),
        item_id: ItemId(501),
        item_type: 0,
        amount: 4,
        equipped_position: EquipPosition { bits: 0 },
        slot: [0, 0, 0, 0],
        hire_expiration_date: 0,
        flags: RegularItemFlags { identified: true, in_etc_tab: false },
    }
}

fn item() -> InventoryItem<NoMetadata> {
    InventoryItem {
        metadata: NoMetadata,
        index: InventoryIndex(1),
        item_id: ItemId(501),
        item_type: 0,
        slot: [0, 0, 0, 0],
        hire_expiration_date: 0,
        details: InventoryItemDetails::Regular {
            amount: 4,
            equipped_position: EquipPosition { bits: 0 },
            flags: RegularItemFlags { identified: true, in_etc_tab: false },
        },
    }
}

#[test]
fn network_inventory_is_reassembled_over_packets() {
    let mut provider = connected_network();
    provider.packet_received(ServerPacket::MapServer(MapServerPacket::InventoyStartPacket));
    provider.packet_received(ServerPacket::MapServer(MapServerPacket::RegularItemListPacket {
        item_information: vec![item_information()],
    }));
    assert_eq!(events(&mut provider), vec![]);
    provider.packet_received(ServerPacket::MapServer(MapServerPacket::InventoyEndPacket));
    assert_eq!(events(&mut provider), vec![GameplayEvent::SetInventory { items: vec![item()] }]);
}

#[test]
fn network_inventory_does_not_leak_across_reconnects() {
    let mut provider = connected_network();
    provider.packet_received(ServerPacket::MapServer(MapServerPacket::InventoyStartPacket));
    provider.packet_received(ServerPacket::MapServer(MapServerPacket::RegularItemListPacket {
        item_information: vec![item_information()],
    }));
    provider.transport_changed(ConnectionPhase::MapServer, TransportChange::Failed(NetworkTaskError::ConnectionClosed));
    provider.connect_to_map_server(
        SupportedPacketVersion::_20220406,
        &login_data(),
        CharacterServerLoginData { server_ip: ServerAddress([10, 0, 0, 3]), server_port: 5121, character_id: CharacterId(1) },
    );
    provider.transport_changed(ConnectionPhase::MapServer, TransportChange::Established);
    provider.packet_received(ServerPacket::MapServer(MapServerPacket::InventoyEndPacket));
    assert_eq!(
        events(&mut provider),
        vec![GameplayEvent::MapServerDisconnected { reason: DisconnectReason::ConnectionClosed }]
    );
}

#[test]
fn offline_commands_before_connected_fail_without_effect() {
    let (mut provider, _) = OfflineSystem::new();
    for (_, answer) in every_answer(&mut provider) {
        assert_eq!(answer, Err(NotConnectedError));
    }
    assert_eq!(events(&mut provider), vec![]);
    assert!(!provider.is_login_server_connected());
    assert!(!provider.is_character_server_connected());
    assert!(!provider.is_map_server_connected());
}

#[test]
fn offline_character_server_connects_at_once_and_lists_its_character() {
    let (mut provider, _) = OfflineSystem::new();
    provider.connect_to_character_server(SupportedPacketVersion::_20220406, &login_data(), character_server());
    assert!(provider.is_character_server_connected());
    // A command before the event of the connection was fetched is accepted.
    assert_eq!(provider.request_character_list(), Ok(()));

    let fetched = events(&mut provider);
    assert_eq!(fetched.len(), 2);
    assert_eq!(fetched[0], GameplayEvent::CharacterServerConnected { normal_slot_count: 15 });
    assert_eq!(
        fetched[1],
        GameplayEvent::CharacterList {
            characters: vec![CharacterInformation {
                character_id: CharacterId(150000),
                experience: 3447,
                money: 20000,
                job_experience: 44,
                job_level: 6,
                body_state: 0,
                health_state: 0,
                effect_state: 0,
                virtue: 0,
                honor: 0,
                stat_points: 1273,
                health_points: 1060,
                maximum_health_points: 1060,
                spell_points: 216,
                maximum_spell_points: 216,
                movement_speed: 150,
                job: 0,
                head: 0,
                body: 0,
                weapon: 1,
                base_level: 99,
                sp_point: 5,
                accessory: 0,
                shield: 0,
                accessory2: 0,
                accessory3: 0,
                head_palette: 0,
                body_palette: 0,
                name: "Sasami".to_string(),
                strength: 99,
                agility: 99,
                vitality: 99,
                intelligence: 99,
                dexterity: 99,
                luck: 99,
                character_number: 0,
                hair_color: 0,
                b_is_changed_char: 1,
                map_name: "prontera.gat".to_string(),
                deletion_reverse_date: 0,
                robe_palette: 0,
                character_slot_change_count: 0,
                character_name_change_count: 0,
                sex: Sex::Female,
            }],
        }
    );
}

#[test]
fn offline_commands_without_support_are_accepted_without_effect() {
    let (mut provider, _) = OfflineSystem::new();
    provider.connect_to_character_server(SupportedPacketVersion::_20220406, &login_data(), character_server());
    events(&mut provider);
    assert_eq!(provider.select_character(0), Ok(()));
    assert_eq!(provider.create_character(1, "Name".to_string()), Ok(()));
    assert_eq!(provider.delete_character(CharacterId(150000)), Ok(()));
    assert_eq!(provider.switch_character_slot(0, 1), Ok(()));
    assert_eq!(events(&mut provider), vec![]);
    assert_eq!(provider.map_loaded(), Err(NotConnectedError));
    assert_eq!(provider.add_friend("Lucy".to_string()), Err(NotConnectedError));
}

#[test]
fn offline_has_no_map_server() {
    let (mut provider, _) = OfflineSystem::new();
    provider.connect_to_map_server(
        SupportedPacketVersion::_20220406,
        &login_data(),
        CharacterServerLoginData { server_ip: ServerAddress([0, 0, 0, 0]), server_port: 1, character_id: CharacterId(150000) },
    );
    assert!(!provider.is_map_server_connected());
    assert_eq!(
        events(&mut provider),
        vec![GameplayEvent::MapServerDisconnected { reason: DisconnectReason::FailedToConnect }]
    );
    assert_eq!(provider.request_client_tick(), Err(NotConnectedError));
    assert_eq!(events(&mut provider), vec![]);
}

#[test]
fn offline_disconnects_are_reported() {
    let (mut provider, _) = OfflineSystem::new();
    provider.connect_to_login_server(SupportedPacketVersion::_20220406, endpoint(1), "", "");
    provider.connect_to_character_server(SupportedPacketVersion::_20220406, &login_data(), character_server());
    events(&mut provider);

    provider.disconnect_from_login_server();
    assert!(!provider.is_login_server_connected());
    assert!(provider.is_character_server_connected());
    provider.disconnect_from_character_server();
    provider.disconnect_from_map_server();
    assert_eq!(
        events(&mut provider),
        vec![
            GameplayEvent::AccountId { account_id: AccountId(2000000) },
            GameplayEvent::LoginServerDisconnected { reason: DisconnectReason::ClosedByClient },
            GameplayEvent::CharacterServerDisconnected { reason: DisconnectReason::ClosedByClient },
            GameplayEvent::MapServerDisconnected { reason: DisconnectReason::ClosedByClient },
        ]
    );
    assert_eq!(provider.request_character_list(), Err(NotConnectedError));
    assert_eq!(events(&mut provider), vec![]);
}

#[test]
fn offline_events_drain_in_order_and_once() {
    let (mut provider, mut buffer) = OfflineSystem::new();
    provider.connect_to_character_server(SupportedPacketVersion::_20220406, &login_data(), character_server());
    provider.disconnect_from_character_server();
    provider.get_events(&mut buffer);
    assert_eq!(
        buffer.drain(),
        vec![
            GameplayEvent::CharacterServerConnected { normal_slot_count: 15 },
            GameplayEvent::CharacterServerDisconnected { reason: DisconnectReason::ClosedByClient },
        ]
    );
    provider.get_events(&mut buffer);
    assert!(buffer.is_empty());
    provider.connect_to_character_server(SupportedPacketVersion::_20220406, &login_data(), character_server());
    provider.get_events(&mut buffer);
    assert_eq!(buffer.drain(), vec![GameplayEvent::CharacterServerConnected { normal_slot_count: 15 }]);
}

#[test]
fn client_ticks_wrap_at_32_bits() {
    assert_eq!(client_tick_of(0), ClientTick(0));
    assert_eq!(client_tick_of(1234), ClientTick(1234));
    assert_eq!(client_tick_of(4_294_967_295), ClientTick(4_294_967_295));
    assert_eq!(client_tick_of(4_294_967_296), ClientTick(0));
    assert_eq!(client_tick_of(4_294_967_296 * 3 + 17), ClientTick(17));
    assert_eq!(client_tick_of(u128::MAX), ClientTick(u32::MAX));
}

#[test]
fn network_packets_carry_the_time_at_which_they_were_received() {
    let mut provider = connected_network();
    let moment = std::time::Instant::now();
    provider.packet_received_at(
        ServerPacket::MapServer(MapServerPacket::ServerTickPacket { client_tick: ClientTick(77) }),
        moment,
    );
    assert_eq!(
        events(&mut provider),
        vec![GameplayEvent::UpdateClientTick { client_tick: ClientTick(77), received_at: moment }]
    );

    let before = std::time::Instant::now();
    provider.packet_received(ServerPacket::MapServer(MapServerPacket::ServerTickPacket { client_tick: ClientTick(78) }));
    let after = std::time::Instant::now();
    match events(&mut provider).as_slice() {
        [GameplayEvent::UpdateClientTick { client_tick, received_at }] => {
            assert_eq!(*client_tick, ClientTick(78));
            assert!(before <= *received_at && *received_at <= after);
        }
        other => panic!("unexpected events {:?}", other),
    }
}

#[test]
fn network_inventory_is_dropped_when_the_client_disconnects() {
    let mut provider = connected_network();
    provider.packet_received(ServerPacket::MapServer(MapServerPacket::InventoyStartPacket));
    provider.packet_received(ServerPacket::MapServer(MapServerPacket::RegularItemListPacket {
        item_information: vec![item_information()],
    }));
    provider.disconnect_from_map_server();
    // Packets that still arrive while the session closes are dropped.
    provider.packet_received(ServerPacket::MapServer(MapServerPacket::InventoyEndPacket));
    provider.transport_changed(ConnectionPhase::MapServer, TransportChange::Closed);
    assert_eq!(
        events(&mut provider),
        vec![GameplayEvent::MapServerDisconnected { reason: DisconnectReason::ClosedByClient }]
    );
}
