//! The provider that plays over the network. It decides; the sockets are
//! owned by tasks elsewhere, which carry out its requests and report what
//! arrives.

use vstd::prelude::*;
use vstd::string::*;

use crate::buffer::GameplayEventBuffer;
use crate::character::{
    character_server_output, character_server_wiring, handle_character_server_packet,
    register_character_server_packets,
};
use crate::clock::now;
use crate::command::{Command, ServerPacket, TransportChange, TransportRequest};
use crate::event::{DisconnectReason, GameplayEvent, HandlerOutput};
use crate::items::{InventoryItem, NoMetadata, ShopItem};
use crate::login::{handle_login_server_packet, login_server_event, login_server_wiring, register_login_server_packets};
use crate::map::{map_server_wiring, register_map_server_packets};
use crate::map_events::{map_server_inventory, map_server_outcome};
use crate::provider::{is_chat_command, GameplayProvider, ProviderModel};
use crate::registry::{lemma_registered_in_empty, Handling, Lookup, PacketHandlerRegistry, PacketKind};
use crate::session::{
    disconnected_event, kept_inventory, session_ended_event, session_step, ConnectionPhase, ConnectionSession,
    ConnectionState, NetworkTaskError, SessionAction, SessionInput, SessionStep,
};
use crate::types::{CharacterServerLoginData, LoginServerLoginData, NotConnectedError, SupportedPacketVersion};
use crate::wire::{
    AccountId, BuyOrSellOption, CharacterId, CharacterServerInformation, EntityId, EquipPosition, HotbarSlot,
    HotbarTab, HotkeyData, InventoryIndex, ServerEndpoint, ShopId, SkillId, SkillLevel, SoldItemInformation,
    StatUpType, TilePosition, WorldPosition,
};

verus! {

/// What a networked provider holds, as contracts see it.
pub struct NetworkView {
    pub login: ConnectionState,
    pub character: ConnectionState,
    pub map: ConnectionState,
    /// The accumulator of the map session's inventory.
    pub inventory: Option<Seq<InventoryItem<NoMetadata>>>,
    /// The events that wait to be fetched, oldest first.
    pub events: Seq<GameplayEvent>,
    /// The requests that wait to be carried out, oldest first.
    pub requests: Seq<TransportRequest>,
}

impl NetworkView {
    /// The state of a phase's session.
    pub open spec fn state(self, phase: ConnectionPhase) -> ConnectionState {
        match phase {
            ConnectionPhase::LoginServer => self.login,
            ConnectionPhase::CharacterServer => self.character,
            ConnectionPhase::MapServer => self.map,
        }
    }

    /// The same provider with a phase's session in another state.
    pub open spec fn with_state(self, phase: ConnectionPhase, state: ConnectionState) -> NetworkView {
        match phase {
            ConnectionPhase::LoginServer => NetworkView { login: state, ..self },
            ConnectionPhase::CharacterServer => NetworkView { character: state, ..self },
            ConnectionPhase::MapServer => NetworkView { map: state, ..self },
        }
    }
}

/// What a phase does with each packet type.
pub open spec fn phase_wiring(phase: ConnectionPhase, kind: PacketKind) -> Option<Handling> {
    match phase {
        ConnectionPhase::LoginServer => login_server_wiring(kind),
        ConnectionPhase::CharacterServer => character_server_wiring(kind),
        ConnectionPhase::MapServer => map_server_wiring(kind),
    }
}

/// The input to a phase's session that a report of its transport is.
pub open spec fn input_of(change: TransportChange) -> SessionInput {
    match change {
        TransportChange::Established => SessionInput::Established,
        TransportChange::Failed(error) => SessionInput::Failed(error),
        TransportChange::Closed => SessionInput::Closed,
    }
}

/// The provider after a phase's session has taken a step: the session is in
/// its new state, and an unfinished inventory of the map session is kept only
/// while that session stays connected.
pub open spec fn stepped(before: NetworkView, phase: ConnectionPhase, step: SessionStep) -> NetworkView {
    NetworkView {
        inventory: if phase == ConnectionPhase::MapServer {
            kept_inventory(before.map, step.state, before.inventory)
        } else {
            before.inventory
        },
        ..before.with_state(phase, step.state)
    }
}

/// How a command changes the provider. While the command's phase is
/// connected the command is queued for its server, behind what is queued
/// already, and nothing else changes. Otherwise the command fails and the
/// provider stays as it was.
pub open spec fn command_sent(
    before: NetworkView,
    command: Command,
    answer: Result<(), NotConnectedError>,
    after: NetworkView,
) -> bool {
    if before.state(command.spec_phase()) == ConnectionState::Connected {
        answer is Ok && after == (NetworkView {
            requests: before.requests.push(TransportRequest::Send { phase: command.spec_phase(), command }),
            ..before
        })
    } else {
        answer is Err && after == before
    }
}

/// A command for a phase that is not connected fails, and neither queues
/// anything for a server nor changes anything else.
pub proof fn lemma_command_needs_connection(
    before: NetworkView,
    command: Command,
    answer: Result<(), NotConnectedError>,
    after: NetworkView,
)
    requires
        command_sent(before, command, answer, after),
        before.state(command.spec_phase()) != ConnectionState::Connected,
    ensures
        answer is Err,
        after == before,
        after.requests == before.requests,
{
}

/// A command for a phase that is connected is queued behind every request
/// made before it, and leaves the events, the sessions and the inventory as
/// they were.
pub proof fn lemma_command_is_queued_last(
    before: NetworkView,
    command: Command,
    answer: Result<(), NotConnectedError>,
    after: NetworkView,
)
    requires
        command_sent(before, command, answer, after),
        before.state(command.spec_phase()) == ConnectionState::Connected,
    ensures
        answer is Ok,
        before.requests.is_prefix_of(after.requests),
        after.requests.len() == before.requests.len() + 1,
        after.requests.last() == (TransportRequest::Send { phase: command.spec_phase(), command }),
        after.events == before.events,
        after.inventory == before.inventory,
        forall|phase: ConnectionPhase| after.state(phase) == before.state(phase),
{
}

/// How a request to connect changes the provider. A phase that is
/// disconnected starts to connect: a connection is asked for, and the
/// greeting is queued behind it. A phase that is not disconnected has a
/// session already, and nothing changes.
pub open spec fn connection_requested(
    before: NetworkView,
    phase: ConnectionPhase,
    endpoint: ServerEndpoint,
    packet_version: SupportedPacketVersion,
    greeting: Command,
    after: NetworkView,
) -> bool {
    if before.state(phase) == ConnectionState::Disconnected {
        after == (NetworkView {
            requests: before.requests.push(TransportRequest::Open { phase, endpoint, packet_version }).push(
                TransportRequest::Send { phase, command: greeting },
            ),
            ..before.with_state(phase, ConnectionState::Connecting)
        })
    } else {
        after == before
    }
}

/// How a request to disconnect changes the provider: where the phase has a
/// session that is not yet closing, the session starts to close and its task
/// is asked to end. An unfinished inventory of the session is dropped.
pub open spec fn disconnection_requested(before: NetworkView, phase: ConnectionPhase, after: NetworkView) -> bool {
    let step = session_step(before.state(phase), SessionInput::Disconnect);
    after == (NetworkView {
        requests: if step.action == SessionAction::Close {
            before.requests.push(TransportRequest::Close { phase })
        } else {
            before.requests
        },
        ..stepped(before, phase, step)
    })
}

/// How a report of a phase's transport changes the provider: the session
/// takes its step, and where that ends the session, the end is reported by
/// one event. An unfinished inventory does not outlast the connection.
pub open spec fn transport_reported(
    before: NetworkView,
    phase: ConnectionPhase,
    change: TransportChange,
    after: NetworkView,
) -> bool {
    let step = session_step(before.state(phase), input_of(change));
    after == (NetworkView {
        events: match step.ended {
            Some(reason) => before.events.push(session_ended_event(phase, reason)),
            None => before.events,
        },
        ..stepped(before, phase, step)
    })
}

/// How a packet that was received at `received_at` changes the provider. A
/// packet is translated if its phase is connected and has a handler for it:
/// the events are queued behind those that wait already, and the packets of
/// an inventory sequence move the accumulator. Any other packet is dropped.
pub open spec fn packet_delivered(
    before: NetworkView,
    packet: ServerPacket,
    received_at: std::time::Instant,
    after: NetworkView,
) -> bool {
    if before.state(packet.spec_phase()) == ConnectionState::Connected && phase_wiring(
        packet.spec_phase(),
        packet.spec_kind(),
    ) == Some(Handling::Translate) {
        match packet {
            ServerPacket::Login(packet) => after == (NetworkView {
                events: before.events.push(login_server_event(packet)),
                ..before
            }),
            ServerPacket::Character(packet) => after == (NetworkView {
                events: before.events + character_server_output(packet)@,
                ..before
            }),
            ServerPacket::MapServer(packet) => exists|output: HandlerOutput|
                #[trigger] map_server_outcome(packet, before.inventory, received_at, output) && after == (
                NetworkView {
                    events: before.events + output@,
                    inventory: map_server_inventory(packet, before.inventory),
                    ..before
                }),
        }
    } else {
        after == before
    }
}

/// A failure of a phase's transport leaves the phase disconnected, and is
/// reported by exactly one event if the phase had a session, and by none
/// otherwise. The other phases stay as they are.
pub proof fn lemma_failure_is_reported_once(
    before: NetworkView,
    phase: ConnectionPhase,
    error: NetworkTaskError,
    after: NetworkView,
)
    requires
        transport_reported(before, phase, TransportChange::Failed(error), after),
    ensures
        after.state(phase) == ConnectionState::Disconnected,
        forall|other: ConnectionPhase| other != phase ==> after.state(other) == before.state(other),
        before.state(phase) == ConnectionState::Disconnected ==> after.events == before.events,
        before.state(phase) != ConnectionState::Disconnected ==> after.events.len() == before.events.len() + 1
            && after.events.drop_last() == before.events && exists|reason: DisconnectReason|
            after.events.last() == #[trigger] session_ended_event(phase, reason),
        after.requests == before.requests,
{
    let step = session_step(before.state(phase), SessionInput::Failed(error));
    if before.state(phase) != ConnectionState::Disconnected {
        let reason = step.ended->0;
        assert(after.events == before.events.push(session_ended_event(phase, reason)));
        assert(after.events.drop_last() =~= before.events);
    }
}

/// Whatever is reported or delivered, the events that wait to be fetched
/// stay where they are: new events are queued behind them, in the order in
/// which they arrive.
pub proof fn lemma_events_are_only_appended(
    before: NetworkView,
    phase: ConnectionPhase,
    change: TransportChange,
    packet: ServerPacket,
    received_at: std::time::Instant,
    after: NetworkView,
)
    requires
        transport_reported(before, phase, change, after) || packet_delivered(before, packet, received_at, after),
    ensures
        before.events.is_prefix_of(after.events),
        after.requests == before.requests,
{
}

/// Whether `command` greets the login server with these credentials.
pub open spec fn is_login_command(command: Command, username: Seq<char>, password: Seq<char>) -> bool {
    command matches Command::Login { username: name, password: word } && name@ == username && word@ == password
}

/// A provider that plays over the network.
pub struct NetworkProvider {
    login: ConnectionSession,
    character: ConnectionSession,
    map: ConnectionSession,
    login_handlers: PacketHandlerRegistry,
    character_handlers: PacketHandlerRegistry,
    map_handlers: PacketHandlerRegistry,
    events: Vec<GameplayEvent>,
    requests: Vec<TransportRequest>,
}

impl View for NetworkProvider {
    type V = NetworkView;

    closed spec fn view(&self) -> NetworkView {
        NetworkView {
            login: self.login.spec_state(),
            character: self.character.spec_state(),
            map: self.map.spec_state(),
            inventory: self.map.inventory(),
            events: self.events@,
            requests: self.requests@,
        }
    }
}

impl ProviderModel for NetworkProvider {
    /// Each phase has its session, and its registry holds the packet types
    /// of the phase.
    closed spec fn wf(&self) -> bool {
        &&& self.login.wf()
        &&& self.character.wf()
        &&& self.map.wf()
        &&& self.login.spec_phase() == ConnectionPhase::LoginServer
        &&& self.character.spec_phase() == ConnectionPhase::CharacterServer
        &&& self.map.spec_phase() == ConnectionPhase::MapServer
        &&& self.login_handlers.wf()
        &&& self.character_handlers.wf()
        &&& self.map_handlers.wf()
        &&& forall|kind: PacketKind| #[trigger] self.login_handlers@.get(kind) == login_server_wiring(kind)
        &&& forall|kind: PacketKind| #[trigger] self.character_handlers@.get(kind) == character_server_wiring(kind)
        &&& forall|kind: PacketKind| #[trigger] self.map_handlers@.get(kind) == map_server_wiring(kind)
    }

    open spec fn connected(&self, phase: ConnectionPhase) -> bool {
        self@.state(phase) == ConnectionState::Connected
    }

    open spec fn pending_events(&self) -> Seq<GameplayEvent> {
        self@.events
    }

    open spec fn answered(&self, command: Command, answer: Result<(), NotConnectedError>, after: &Self) -> bool {
        command_sent(self@, command, answer, after@)
    }
}

/// A registry with the packet types of the login phase.
fn login_server_registry() -> (registry: PacketHandlerRegistry)
    ensures
        registry.wf(),
        forall|kind: PacketKind| #[trigger] registry@.get(kind) == login_server_wiring(kind),
{
    let mut registry = PacketHandlerRegistry::new();
    let registered = register_login_server_packets(&mut registry);
    proof {
        lemma_registered_in_empty(|kind: PacketKind| login_server_wiring(kind), registered, registry@);
    }
    registry
}

/// A registry with the packet types of the character phase.
fn character_server_registry() -> (registry: PacketHandlerRegistry)
    ensures
        registry.wf(),
        forall|kind: PacketKind| #[trigger] registry@.get(kind) == character_server_wiring(kind),
{
    let mut registry = PacketHandlerRegistry::new();
    let registered = register_character_server_packets(&mut registry);
    proof {
        lemma_registered_in_empty(|kind: PacketKind| character_server_wiring(kind), registered, registry@);
    }
    registry
}

/// A registry with the packet types of the map phase.
fn map_server_registry() -> (registry: PacketHandlerRegistry)
    ensures
        registry.wf(),
        forall|kind: PacketKind| #[trigger] registry@.get(kind) == map_server_wiring(kind),
{
    let mut registry = PacketHandlerRegistry::new();
    let registered = register_map_server_packets(&mut registry);
    proof {
        lemma_registered_in_empty(|kind: PacketKind| map_server_wiring(kind), registered, registry@);
    }
    registry
}

impl NetworkProvider {
    /// A provider without any session, event or request.
    pub fn new() -> (provider: Self)
        ensures
            provider.wf(),
            provider@ == (NetworkView {
                login: ConnectionState::Disconnected,
                character: ConnectionState::Disconnected,
                map: ConnectionState::Disconnected,
                inventory: None,
                events: Seq::empty(),
                requests: Seq::empty(),
            }),
    {
        NetworkProvider {
            login: ConnectionSession::new(ConnectionPhase::LoginServer),
            character: ConnectionSession::new(ConnectionPhase::CharacterServer),
            map: ConnectionSession::new(ConnectionPhase::MapServer),
            login_handlers: login_server_registry(),
            character_handlers: character_server_registry(),
            map_handlers: map_server_registry(),
            events: Vec::new(),
            requests: Vec::new(),
        }
    }

    /// An inventory is collected only while the map session is connected:
    /// what a session has collected does not leak into the next.
    pub proof fn lemma_unfinished_inventory_needs_connection(&self)
        requires
            self.wf(),
        ensures
            self@.inventory is Some ==> self@.map == ConnectionState::Connected,
    {
    }

    /// The state of a phase's session.
    pub fn state(&self, phase: ConnectionPhase) -> (state: ConnectionState)
        ensures
            state == self@.state(phase),
    {
        match phase {
            ConnectionPhase::LoginServer => self.login.state(),
            ConnectionPhase::CharacterServer => self.character.state(),
            ConnectionPhase::MapServer => self.map.state(),
        }
    }

    /// Takes a phase's session through one step of the state machine.
    fn step(&mut self, phase: ConnectionPhase, input: SessionInput) -> (step: SessionStep)
        requires
            old(self).wf(),
        ensures
            final(self).wf(),
            step == session_step(old(self)@.state(phase), input),
            final(self)@ == stepped(old(self)@, phase, step),
    {
        match phase {
            ConnectionPhase::LoginServer => self.login.handle(input),
            ConnectionPhase::CharacterServer => self.character.handle(input),
            ConnectionPhase::MapServer => self.map.handle(input),
        }
    }

    /// Queues a command for its server, if the provider is connected to it.
    pub fn send(&mut self, command: Command) -> (answer: Result<(), NotConnectedError>)
        requires
            old(self).wf(),
        ensures
            final(self).wf(),
            command_sent(old(self)@, command, answer, final(self)@),
            answer is Err ==> *final(self) == *old(self),
    {
        let phase = command.phase();
        match self.state(phase) {
            ConnectionState::Connected => {
                self.requests.push(TransportRequest::Send { phase, command });
                Ok(())
            },
            _ => Err(NotConnectedError),
        }
    }

    /// Starts a session for a phase, if it has none.
    fn connect(
        &mut self,
        phase: ConnectionPhase,
        endpoint: ServerEndpoint,
        packet_version: SupportedPacketVersion,
        greeting: Command,
    )
        requires
            old(self).wf(),
        ensures
            final(self).wf(),
            connection_requested(old(self)@, phase, endpoint, packet_version, greeting, final(self)@),
    {
        let step = self.step(phase, SessionInput::Connect);
        if let SessionAction::Open = step.action {
            self.requests.push(TransportRequest::Open { phase, endpoint, packet_version });
            self.requests.push(TransportRequest::Send { phase, command: greeting });
        }
    }

    /// Starts to close a phase's session, if it has one.
    fn disconnect(&mut self, phase: ConnectionPhase)
        requires
            old(self).wf(),
        ensures
            final(self).wf(),
            disconnection_requested(old(self)@, phase, final(self)@),
    {
        let step = self.step(phase, SessionInput::Disconnect);
        if let SessionAction::Close = step.action {
            self.requests.push(TransportRequest::Close { phase });
        }
    }

    /// Takes in what the task of a phase reports of its transport.
    pub fn transport_changed(&mut self, phase: ConnectionPhase, change: TransportChange)
        requires
            old(self).wf(),
        ensures
            final(self).wf(),
            transport_reported(old(self)@, phase, change, final(self)@),
    {
        let input = match change {
            TransportChange::Established => SessionInput::Established,
            TransportChange::Failed(error) => SessionInput::Failed(error),
            TransportChange::Closed => SessionInput::Closed,
        };
        let step = self.step(phase, input);
        if let Some(reason) = step.ended {
            self.events.push(disconnected_event(phase, reason));
        }
    }

    /// Takes in a packet that the task of a phase has decoded just now: the
    /// packet is stamped with the current time.
    pub fn packet_received(&mut self, packet: ServerPacket)
        requires
            old(self).wf(),
            packet.is_supported(),
        ensures
            final(self).wf(),
            exists|received_at: std::time::Instant| #[trigger]
                packet_delivered(old(self)@, packet, received_at, final(self)@),
    {
        let received_at = now();
        self.packet_received_at(packet, received_at);
    }

    /// Takes in a packet that the task of a phase has decoded after it was
    /// received at `received_at`.
    pub fn packet_received_at(&mut self, packet: ServerPacket, received_at: std::time::Instant)
        requires
            old(self).wf(),
            packet.is_supported(),
        ensures
            final(self).wf(),
            packet_delivered(old(self)@, packet, received_at, final(self)@),
    {
        let phase = packet.phase();
        let kind = packet.kind();
        match self.state(phase) {
            ConnectionState::Connected => {},
            _ => {
                return ;
            },
        }
        let found = match phase {
            ConnectionPhase::LoginServer => self.login_handlers.lookup(kind),
            ConnectionPhase::CharacterServer => self.character_handlers.lookup(kind),
            ConnectionPhase::MapServer => self.map_handlers.lookup(kind),
        };
        match found {
            Lookup::Registered(Handling::Translate) => {},
            _ => {
                return ;
            },
        }
        let ghost before = self@;
        match packet {
            ServerPacket::Login(packet) => {
                let output = handle_login_server_packet(packet);
                let mut produced = output.into_events();
                self.events.append(&mut produced);
                assert(self@.events =~= before.events.push(login_server_event(packet)));
            },
            ServerPacket::Character(packet) => {
                let output = handle_character_server_packet(packet);
                let mut produced = output.into_events();
                self.events.append(&mut produced);
            },
            ServerPacket::MapServer(packet) => {
                let output = self.map.translate(packet, received_at);
                let ghost shown = output;
                let mut produced = output.into_events();
                self.events.append(&mut produced);
                assert(map_server_outcome(packet, before.inventory, received_at, shown));
            },
        }
    }

    /// Hands out the requests that wait to be carried out, oldest first.
    pub fn take_requests(&mut self) -> (requests: Vec<TransportRequest>)
        requires
            old(self).wf(),
        ensures
            final(self).wf(),
            requests@ == old(self)@.requests,
            final(self)@ == (NetworkView { requests: Seq::empty(), ..old(self)@ }),
    {
        let mut requests = Vec::new();
        std::mem::swap(&mut self.requests, &mut requests);
        requests
    }
}

impl GameplayProvider for NetworkProvider {
    fn get_events(&mut self, events: &mut GameplayEventBuffer)
        ensures
            final(self)@ == (NetworkView { events: Seq::empty(), ..old(self)@ }),
    {
        events.append(&mut self.events);
    }

    fn connect_to_login_server(
        &mut self,
        packet_version: SupportedPacketVersion,
        address: ServerEndpoint,
        username: &str,
        password: &str,
    )
        ensures
            exists|greeting: Command|
                is_login_command(greeting, username@, password@) && #[trigger] connection_requested(
                    old(self)@,
                    ConnectionPhase::LoginServer,
                    address,
                    packet_version,
                    greeting,
                    final(self)@,
                ),
    {
        let greeting = Command::Login { username: String::from_str(username), password: String::from_str(password) };
        self.connect(ConnectionPhase::LoginServer, address, packet_version, greeting);
    }

    fn connect_to_character_server(
        &mut self,
        packet_version: SupportedPacketVersion,
        login_data: &LoginServerLoginData,
        server: CharacterServerInformation,
    )
        ensures
            connection_requested(
                old(self)@,
                ConnectionPhase::CharacterServer,
                ServerEndpoint { address: server.server_ip, port: server.server_port },
                packet_version,
                Command::CharacterLogin { login_data: *login_data },
                final(self)@,
            ),
    {
        let endpoint = ServerEndpoint { address: server.server_ip, port: server.server_port };
        self.connect(
            ConnectionPhase::CharacterServer,
            endpoint,
            packet_version,
            Command::CharacterLogin { login_data: *login_data },
        );
    }

    fn connect_to_map_server(
        &mut self,
        packet_version: SupportedPacketVersion,
        login_server_login_data: &LoginServerLoginData,
        character_server_login_data: CharacterServerLoginData,
    )
        ensures
            connection_requested(
                old(self)@,
                ConnectionPhase::MapServer,
                ServerEndpoint {
                    address: character_server_login_data.server_ip,
                    port: character_server_login_data.server_port,
                },
                packet_version,
                Command::MapLogin {
                    login_data: *login_server_login_data,
                    character_id: character_server_login_data.character_id,
                },
                final(self)@,
            ),
    {
        let endpoint = ServerEndpoint {
            address: character_server_login_data.server_ip,
            port: character_server_login_data.server_port,
        };
        self.connect(
            ConnectionPhase::MapServer,
            endpoint,
            packet_version,
            Command::MapLogin {
                login_data: *login_server_login_data,
                character_id: character_server_login_data.character_id,
            },
        );
    }

    fn disconnect_from_login_server(&mut self)
        ensures
            disconnection_requested(old(self)@, ConnectionPhase::LoginServer, final(self)@),
    {
        self.disconnect(ConnectionPhase::LoginServer);
    }

    fn disconnect_from_character_server(&mut self)
        ensures
            disconnection_requested(old(self)@, ConnectionPhase::CharacterServer, final(self)@),
    {
        self.disconnect(ConnectionPhase::CharacterServer);
    }

    fn disconnect_from_map_server(&mut self)
        ensures
            disconnection_requested(old(self)@, ConnectionPhase::MapServer, final(self)@),
    {
        self.disconnect(ConnectionPhase::MapServer);
    }

    fn is_login_server_connected(&self) -> (connected: bool) {
        self.login.is_connected()
    }

    fn is_character_server_connected(&self) -> (connected: bool) {
        self.character.is_connected()
    }

    fn is_map_server_connected(&self) -> (connected: bool) {
        self.map.is_connected()
    }

    fn request_character_list(&mut self) -> (answer: Result<(), NotConnectedError>)
        ensures
            command_sent(old(self)@, Command::RequestCharacterList, answer, final(self)@),
    {
        self.send(Command::RequestCharacterList)
    }

    fn select_character(&mut self, character_slot: usize) -> (answer: Result<(), NotConnectedError>)
        ensures
            command_sent(old(self)@, Command::SelectCharacter { character_slot }, answer, final(self)@),
    {
        self.send(Command::SelectCharacter { character_slot })
    }

    fn create_character(&mut self, slot: usize, name: String) -> (answer: Result<(), NotConnectedError>)
        ensures
            command_sent(old(self)@, Command::CreateCharacter { slot, name }, answer, final(self)@),
    {
        self.send(Command::CreateCharacter { slot, name })
    }

    fn delete_character(&mut self, character_id: CharacterId) -> (answer: Result<(), NotConnectedError>)
        ensures
            command_sent(old(self)@, Command::DeleteCharacter { character_id }, answer, final(self)@),
    {
        self.send(Command::DeleteCharacter { character_id })
    }

    fn switch_character_slot(&mut self, origin_slot: usize, destination_slot: usize) -> (answer: Result<(), NotConnectedError>)
        ensures
            command_sent(old(self)@, Command::SwitchCharacterSlot { origin_slot, destination_slot }, answer, final(self)@),
    {
        self.send(Command::SwitchCharacterSlot { origin_slot, destination_slot })
    }

    fn map_loaded(&mut self) -> (answer: Result<(), NotConnectedError>)
        ensures
            command_sent(old(self)@, Command::MapLoaded, answer, final(self)@),
    {
        self.send(Command::MapLoaded)
    }

    fn request_client_tick(&mut self) -> (answer: Result<(), NotConnectedError>)
        ensures
            command_sent(old(self)@, Command::RequestClientTick, answer, final(self)@),
    {
        self.send(Command::RequestClientTick)
    }

    fn respawn(&mut self) -> (answer: Result<(), NotConnectedError>)
        ensures
            command_sent(old(self)@, Command::Respawn, answer, final(self)@),
    {
        self.send(Command::Respawn)
    }

    fn log_out(&mut self) -> (answer: Result<(), NotConnectedError>)
        ensures
            command_sent(old(self)@, Command::LogOut, answer, final(self)@),
    {
        self.send(Command::LogOut)
    }

    fn player_move(&mut self, position: WorldPosition) -> (answer: Result<(), NotConnectedError>)
        ensures
            command_sent(old(self)@, Command::PlayerMove { position }, answer, final(self)@),
    {
        self.send(Command::PlayerMove { position })
    }

    fn warp_to_map(&mut self, map_name: String, position: TilePosition) -> (answer: Result<(), NotConnectedError>)
        ensures
            command_sent(old(self)@, Command::WarpToMap { map_name, position }, answer, final(self)@),
    {
        self.send(Command::WarpToMap { map_name, position })
    }

    fn entity_details(&mut self, entity_id: EntityId) -> (answer: Result<(), NotConnectedError>)
        ensures
            command_sent(old(self)@, Command::EntityDetails { entity_id }, answer, final(self)@),
    {
        self.send(Command::EntityDetails { entity_id })
    }

    fn player_attack(&mut self, entity_id: EntityId) -> (answer: Result<(), NotConnectedError>)
        ensures
            command_sent(old(self)@, Command::PlayerAttack { entity_id }, answer, final(self)@),
    {
        self.send(Command::PlayerAttack { entity_id })
    }

    fn send_chat_message(&mut self, player_name: &str, text: &str) -> (answer: Result<(), NotConnectedError>)
        ensures
            exists|command: Command|
                is_chat_command(command, player_name@, text@) && #[trigger] old(self).answered(
                    command,
                    answer,
                    final(self),
                ),
    {
        let command = Command::SendChatMessage {
            player_name: String::from_str(player_name),
            text: String::from_str(text),
        };
        let ghost before = *self;
        let answer = self.send(command);
        assert(is_chat_command(command, player_name@, text@) && before.answered(command, answer, self));
        answer
    }

    fn start_dialog(&mut self, npc_id: EntityId) -> (answer: Result<(), NotConnectedError>)
        ensures
            command_sent(old(self)@, Command::StartDialog { npc_id }, answer, final(self)@),
    {
        self.send(Command::StartDialog { npc_id })
    }

    fn next_dialog(&mut self, npc_id: EntityId) -> (answer: Result<(), NotConnectedError>)
        ensures
            command_sent(old(self)@, Command::NextDialog { npc_id }, answer, final(self)@),
    {
        self.send(Command::NextDialog { npc_id })
    }

    fn close_dialog(&mut self, npc_id: EntityId) -> (answer: Result<(), NotConnectedError>)
        ensures
            command_sent(old(self)@, Command::CloseDialog { npc_id }, answer, final(self)@),
    {
        self.send(Command::CloseDialog { npc_id })
    }

    fn choose_dialog_option(&mut self, npc_id: EntityId, option: i8) -> (answer: Result<(), NotConnectedError>)
        ensures
            command_sent(old(self)@, Command::ChooseDialogOption { npc_id, option }, answer, final(self)@),
    {
        self.send(Command::ChooseDialogOption { npc_id, option })
    }

    fn request_item_equip(&mut self, item_index: InventoryIndex, equip_position: EquipPosition) -> (answer: Result<(), NotConnectedError>)
        ensures
            command_sent(old(self)@, Command::RequestItemEquip { item_index, equip_position }, answer, final(self)@),
    {
        self.send(Command::RequestItemEquip { item_index, equip_position })
    }

    fn request_item_unequip(&mut self, item_index: InventoryIndex) -> (answer: Result<(), NotConnectedError>)
        ensures
            command_sent(old(self)@, Command::RequestItemUnequip { item_index }, answer, final(self)@),
    {
        self.send(Command::RequestItemUnequip { item_index })
    }

    fn cast_skill(&mut self, skill_id: SkillId, skill_level: SkillLevel, entity_id: EntityId) -> (answer: Result<(), NotConnectedError>)
        ensures
            command_sent(old(self)@, Command::CastSkill { skill_id, skill_level, entity_id }, answer, final(self)@),
    {
        self.send(Command::CastSkill { skill_id, skill_level, entity_id })
    }

    fn cast_ground_skill(&mut self, skill_id: SkillId, skill_level: SkillLevel, target_position: TilePosition) -> (answer: Result<(), NotConnectedError>)
        ensures
            command_sent(old(self)@, Command::CastGroundSkill { skill_id, skill_level, target_position }, answer, final(self)@),
    {
        self.send(Command::CastGroundSkill { skill_id, skill_level, target_position })
    }

    fn cast_channeling_skill(&mut self, skill_id: SkillId, skill_level: SkillLevel, entity_id: EntityId) -> (answer: Result<(), NotConnectedError>)
        ensures
            command_sent(old(self)@, Command::CastChannelingSkill { skill_id, skill_level, entity_id }, answer, final(self)@),
    {
        self.send(Command::CastChannelingSkill { skill_id, skill_level, entity_id })
    }

    fn stop_channeling_skill(&mut self, skill_id: SkillId) -> (answer: Result<(), NotConnectedError>)
        ensures
            command_sent(old(self)@, Command::StopChannelingSkill { skill_id }, answer, final(self)@),
    {
        self.send(Command::StopChannelingSkill { skill_id })
    }

    fn add_friend(&mut self, name: String) -> (answer: Result<(), NotConnectedError>)
        ensures
            command_sent(old(self)@, Command::AddFriend { name }, answer, final(self)@),
    {
        self.send(Command::AddFriend { name })
    }

    fn remove_friend(&mut self, account_id: AccountId, character_id: CharacterId) -> (answer: Result<(), NotConnectedError>)
        ensures
            command_sent(old(self)@, Command::RemoveFriend { account_id, character_id }, answer, final(self)@),
    {
        self.send(Command::RemoveFriend { account_id, character_id })
    }

    fn reject_friend_request(&mut self, account_id: AccountId, character_id: CharacterId) -> (answer: Result<(), NotConnectedError>)
        ensures
            command_sent(old(self)@, Command::RejectFriendRequest { account_id, character_id }, answer, final(self)@),
    {
        self.send(Command::RejectFriendRequest { account_id, character_id })
    }

    fn accept_friend_request(&mut self, account_id: AccountId, character_id: CharacterId) -> (answer: Result<(), NotConnectedError>)
        ensures
            command_sent(old(self)@, Command::AcceptFriendRequest { account_id, character_id }, answer, final(self)@),
    {
        self.send(Command::AcceptFriendRequest { account_id, character_id })
    }

    fn set_hotkey_data(&mut self, tab: HotbarTab, index: HotbarSlot, hotkey_data: HotkeyData) -> (answer: Result<(), NotConnectedError>)
        ensures
            command_sent(old(self)@, Command::SetHotkeyData { tab, index, hotkey_data }, answer, final(self)@),
    {
        self.send(Command::SetHotkeyData { tab, index, hotkey_data })
    }

    fn select_buy_or_sell(&mut self, shop_id: ShopId, buy_or_sell: BuyOrSellOption) -> (answer: Result<(), NotConnectedError>)
        ensures
            command_sent(old(self)@, Command::SelectBuyOrSell { shop_id, buy_or_sell }, answer, final(self)@),
    {
        self.send(Command::SelectBuyOrSell { shop_id, buy_or_sell })
    }

    fn purchase_items(&mut self, items: Vec<ShopItem<u32>>) -> (answer: Result<(), NotConnectedError>)
        ensures
            command_sent(old(self)@, Command::PurchaseItems { items }, answer, final(self)@),
    {
        self.send(Command::PurchaseItems { items })
    }

    fn close_shop(&mut self) -> (answer: Result<(), NotConnectedError>)
        ensures
            command_sent(old(self)@, Command::CloseShop, answer, final(self)@),
    {
        self.send(Command::CloseShop)
    }

    fn sell_items(&mut self, items: Vec<SoldItemInformation>) -> (answer: Result<(), NotConnectedError>)
        ensures
            command_sent(old(self)@, Command::SellItems { items }, answer, final(self)@),
    {
        self.send(Command::SellItems { items })
    }

    fn request_stat_up(&mut self, stat_type: StatUpType) -> (answer: Result<(), NotConnectedError>)
        ensures
            command_sent(old(self)@, Command::RequestStatUp { stat_type }, answer, final(self)@),
    {
        self.send(Command::RequestStatUp { stat_type })
    }
}

} // verus!
