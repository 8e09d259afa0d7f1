//! The life of a connection to one server, as a state machine. The socket
//! lives elsewhere: what happens to it arrives here as inputs, and what is to
//! be done with it leaves as actions.

use vstd::prelude::*;

use crate::event::{DisconnectReason, GameplayEvent, HandlerOutput};
use crate::inventory::InventoryAccumulator;
use crate::items::{InventoryItem, NoMetadata};
use crate::map::MapServerPacket;
use crate::map_events::{map_server_inventory, map_server_outcome, translate_map_server_packet};

verus! {

/// The three servers a client talks to. Each has a session of its own.
#[derive(Debug, Clone, Copy, PartialEq, Eq, Hash, Structural)]
pub enum ConnectionPhase {
    LoginServer,
    CharacterServer,
    MapServer,
}

#[derive(Debug, Clone, Copy, PartialEq, Eq, Hash, Structural)]
pub enum ConnectionState {
    Disconnected,
    Connecting,
    Connected,
    Closing,
}

/// How the transport failed.
#[derive(Debug, Clone, Copy, PartialEq, Eq, Hash, Structural)]
pub enum NetworkTaskError {
    FailedToConnect,
    ConnectionClosed,
}

/// What can happen to a session.
#[derive(Debug, Clone, Copy, PartialEq, Eq, Hash, Structural)]
pub enum SessionInput {
    /// The client asks for a connection.
    Connect,
    /// The transport stands: packets can flow.
    Established,
    /// The transport failed.
    Failed(NetworkTaskError),
    /// The client asks for the connection to end.
    Disconnect,
    /// The task that owned the socket has ended.
    Closed,
}

/// What is to be done with the transport after an input.
#[derive(Debug, Clone, Copy, PartialEq, Eq, Hash, Structural)]
pub enum SessionAction {
    Nothing,
    /// Start a task that opens the socket and owns it.
    Open,
    /// Send what is queued as far as possible, then end the task.
    Close,
}

/// A session after an input.
#[derive(Debug, Clone, Copy, PartialEq, Eq, Structural)]
pub struct SessionStep {
    pub state: ConnectionState,
    pub action: SessionAction,
    /// Why the session ended, if the input ended it.
    pub ended: Option<DisconnectReason>,
}

/// The reason with which a failure of the transport is reported.
pub open spec fn failure_reason(error: NetworkTaskError) -> DisconnectReason {
    match error {
        NetworkTaskError::FailedToConnect => DisconnectReason::FailedToConnect,
        NetworkTaskError::ConnectionClosed => DisconnectReason::ConnectionClosed,
    }
}

/// The state machine.
///
/// A session is opened from `Disconnected` only. A failure ends it from any
/// state. An end that the client asked for goes through `Closing`, and is
/// reported as closed by the client however the task ends. An input that does
/// not fit the state changes nothing.
pub open spec fn session_step(state: ConnectionState, input: SessionInput) -> SessionStep {
    match (state, input) {
        (ConnectionState::Disconnected, SessionInput::Connect) => SessionStep {
            state: ConnectionState::Connecting,
            action: SessionAction::Open,
            ended: None,
        },
        (ConnectionState::Connecting, SessionInput::Established) => SessionStep {
            state: ConnectionState::Connected,
            action: SessionAction::Nothing,
            ended: None,
        },
        (ConnectionState::Connecting, SessionInput::Failed(error)) => SessionStep {
            state: ConnectionState::Disconnected,
            action: SessionAction::Nothing,
            ended: Some(failure_reason(error)),
        },
        (ConnectionState::Connected, SessionInput::Failed(error)) => SessionStep {
            state: ConnectionState::Disconnected,
            action: SessionAction::Nothing,
            ended: Some(failure_reason(error)),
        },
        (ConnectionState::Connecting, SessionInput::Closed) => SessionStep {
            state: ConnectionState::Disconnected,
            action: SessionAction::Nothing,
            ended: Some(DisconnectReason::ConnectionClosed),
        },
        (ConnectionState::Connected, SessionInput::Closed) => SessionStep {
            state: ConnectionState::Disconnected,
            action: SessionAction::Nothing,
            ended: Some(DisconnectReason::ConnectionClosed),
        },
        (ConnectionState::Connecting, SessionInput::Disconnect) => SessionStep {
            state: ConnectionState::Closing,
            action: SessionAction::Close,
            ended: None,
        },
        (ConnectionState::Connected, SessionInput::Disconnect) => SessionStep {
            state: ConnectionState::Closing,
            action: SessionAction::Close,
            ended: None,
        },
        (ConnectionState::Closing, SessionInput::Failed(_)) => SessionStep {
            state: ConnectionState::Disconnected,
            action: SessionAction::Nothing,
            ended: Some(DisconnectReason::ClosedByClient),
        },
        (ConnectionState::Closing, SessionInput::Closed) => SessionStep {
            state: ConnectionState::Disconnected,
            action: SessionAction::Nothing,
            ended: Some(DisconnectReason::ClosedByClient),
        },
        _ => SessionStep { state, action: SessionAction::Nothing, ended: None },
    }
}

/// Computes a session's next state, what to do with the transport, and
/// whether the session has ended.
pub fn advance(state: ConnectionState, input: SessionInput) -> (step: SessionStep)
    ensures
        step == session_step(state, input),
{
    match state {
        ConnectionState::Disconnected => match input {
            SessionInput::Connect => SessionStep {
                state: ConnectionState::Connecting,
                action: SessionAction::Open,
                ended: None,
            },
            _ => SessionStep { state, action: SessionAction::Nothing, ended: None },
        },
        ConnectionState::Connecting | ConnectionState::Connected => match input {
            SessionInput::Established => match state {
                ConnectionState::Connecting => SessionStep {
                    state: ConnectionState::Connected,
                    action: SessionAction::Nothing,
                    ended: None,
                },
                _ => SessionStep { state, action: SessionAction::Nothing, ended: None },
            },
            SessionInput::Failed(error) => {
                let reason = match error {
                    NetworkTaskError::FailedToConnect => DisconnectReason::FailedToConnect,
                    NetworkTaskError::ConnectionClosed => DisconnectReason::ConnectionClosed,
                };
                SessionStep { state: ConnectionState::Disconnected, action: SessionAction::Nothing, ended: Some(reason) }
            },
            SessionInput::Closed => SessionStep {
                state: ConnectionState::Disconnected,
                action: SessionAction::Nothing,
                ended: Some(DisconnectReason::ConnectionClosed),
            },
            SessionInput::Disconnect => SessionStep {
                state: ConnectionState::Closing,
                action: SessionAction::Close,
                ended: None,
            },
            SessionInput::Connect => SessionStep { state, action: SessionAction::Nothing, ended: None },
        },
        ConnectionState::Closing => match input {
            SessionInput::Failed(_) | SessionInput::Closed => SessionStep {
                state: ConnectionState::Disconnected,
                action: SessionAction::Nothing,
                ended: Some(DisconnectReason::ClosedByClient),
            },
            _ => SessionStep { state, action: SessionAction::Nothing, ended: None },
        },
    }
}

/// What is left of an unfinished inventory after a session has gone from one
/// state to another: all of it while the session stays connected, and nothing
/// otherwise.
pub open spec fn kept_inventory(
    before: ConnectionState,
    after: ConnectionState,
    inventory: Option<Seq<InventoryItem<NoMetadata>>>,
) -> Option<Seq<InventoryItem<NoMetadata>>> {
    if before == ConnectionState::Connected && after == ConnectionState::Connected {
        inventory
    } else {
        None
    }
}

/// The session of one phase: at any time a phase has this one session, live
/// or not. The session owns what is collected of an inventory that its server
/// is sending.
#[derive(Debug)]
pub struct ConnectionSession {
    phase: ConnectionPhase,
    state: ConnectionState,
    inventory: InventoryAccumulator,
}

impl ConnectionSession {
    pub closed spec fn spec_phase(&self) -> ConnectionPhase {
        self.phase
    }

    pub closed spec fn spec_state(&self) -> ConnectionState {
        self.state
    }

    /// What is collected of an inventory that is being sent.
    pub closed spec fn inventory(&self) -> Option<Seq<InventoryItem<NoMetadata>>> {
        self.inventory@
    }

    /// An inventory is collected only while the session is connected.
    pub open spec fn wf(&self) -> bool {
        self.inventory() is Some ==> self.spec_state() == ConnectionState::Connected
    }

    /// The session of a phase that is disconnected.
    pub fn new(phase: ConnectionPhase) -> (session: Self)
        ensures
            session.spec_phase() == phase,
            session.spec_state() == ConnectionState::Disconnected,
            session.inventory() is None,
    {
        ConnectionSession { phase, state: ConnectionState::Disconnected, inventory: InventoryAccumulator::new() }
    }

    /// The phase whose session this is.
    #[verifier::when_used_as_spec(spec_phase)]
    pub fn phase(&self) -> (phase: ConnectionPhase)
        ensures
            phase == self.spec_phase(),
    {
        self.phase
    }

    #[verifier::when_used_as_spec(spec_state)]
    pub fn state(&self) -> (state: ConnectionState)
        ensures
            state == self.spec_state(),
    {
        self.state
    }

    /// Whether commands can be sent.
    pub fn is_connected(&self) -> (connected: bool)
        ensures
            connected == (self.spec_state() == ConnectionState::Connected),
    {
        match self.state {
            ConnectionState::Connected => true,
            _ => false,
        }
    }

    /// Whether an inventory is being collected.
    pub fn is_collecting(&self) -> (collecting: bool)
        ensures
            collecting == self.inventory().is_some(),
    {
        self.inventory.is_active()
    }

    /// Takes the session through one step of the state machine. Returns what
    /// is to be done with the transport, and why the session ended if the
    /// input ended it. An unfinished inventory does not outlast the
    /// connection.
    pub fn handle(&mut self, input: SessionInput) -> (step: SessionStep)
        ensures
            step == session_step(old(self).spec_state(), input),
            final(self).spec_state() == step.state,
            final(self).spec_phase() == old(self).spec_phase(),
            final(self).inventory() == kept_inventory(old(self).spec_state(), step.state, old(self).inventory()),
            final(self).wf(),
    {
        let step = advance(self.state, input);
        let stays_connected = match (self.state, step.state) {
            (ConnectionState::Connected, ConnectionState::Connected) => true,
            _ => false,
        };
        if !stays_connected {
            self.inventory.reset();
        }
        self.state = step.state;
        step
    }

    /// Translates a packet of the map server that was received at
    /// `received_at` while the session is connected, and keeps the inventory
    /// that is being collected up to date.
    pub fn translate(&mut self, packet: MapServerPacket, received_at: std::time::Instant) -> (output: HandlerOutput)
        requires
            old(self).spec_state() == ConnectionState::Connected,
            packet.is_supported(),
        ensures
            map_server_outcome(packet, old(self).inventory(), received_at, output),
            final(self).inventory() == map_server_inventory(packet, old(self).inventory()),
            final(self).spec_state() == old(self).spec_state(),
            final(self).spec_phase() == old(self).spec_phase(),
            final(self).wf(),
    {
        translate_map_server_packet(packet, &mut self.inventory, received_at)
    }

    /// The event that reports the end of this session.
    pub fn ended_event(&self, reason: DisconnectReason) -> (event: GameplayEvent)
        ensures
            event == session_ended_event(self.spec_phase(), reason),
    {
        disconnected_event(self.phase, reason)
    }
}

/// The event that tells the client that a phase's session has ended.
pub open spec fn session_ended_event(phase: ConnectionPhase, reason: DisconnectReason) -> GameplayEvent {
    match phase {
        ConnectionPhase::LoginServer => GameplayEvent::LoginServerDisconnected { reason },
        ConnectionPhase::CharacterServer => GameplayEvent::CharacterServerDisconnected { reason },
        ConnectionPhase::MapServer => GameplayEvent::MapServerDisconnected { reason },
    }
}

/// Builds the event that tells the client that a phase's session has ended.
pub fn disconnected_event(phase: ConnectionPhase, reason: DisconnectReason) -> (event: GameplayEvent)
    ensures
        event == session_ended_event(phase, reason),
{
    match phase {
        ConnectionPhase::LoginServer => GameplayEvent::LoginServerDisconnected { reason },
        ConnectionPhase::CharacterServer => GameplayEvent::CharacterServerDisconnected { reason },
        ConnectionPhase::MapServer => GameplayEvent::MapServerDisconnected { reason },
    }
}

/// A failure of the transport ends the session, whatever its state, and is
/// reported exactly if there was a session to end.
pub proof fn lemma_failure_ends_session(state: ConnectionState, error: NetworkTaskError)
    ensures
        session_step(state, SessionInput::Failed(error)).state == ConnectionState::Disconnected,
        session_step(state, SessionInput::Failed(error)).ended is Some <==> state != ConnectionState::Disconnected,
        state == ConnectionState::Connecting || state == ConnectionState::Connected ==> session_step(
            state,
            SessionInput::Failed(error),
        ).ended == Some(failure_reason(error)),
{
}

/// The end of a session is reported exactly when the session ends: with the
/// input that takes it to `Disconnected` from another state.
pub proof fn lemma_end_is_reported_once(state: ConnectionState, input: SessionInput)
    ensures
        session_step(state, input).ended is Some <==> state != ConnectionState::Disconnected && session_step(
            state,
            input,
        ).state == ConnectionState::Disconnected,
{
}

/// A task is opened only for a session that is disconnected, and a session
/// becomes connected only when the transport that was being opened stands.
pub proof fn lemma_one_session_at_a_time(state: ConnectionState, input: SessionInput)
    ensures
        session_step(state, input).action == SessionAction::Open <==> state == ConnectionState::Disconnected && input
            == SessionInput::Connect,
        session_step(state, input).state == ConnectionState::Connected && state != ConnectionState::Connected
            ==> state == ConnectionState::Connecting && input == SessionInput::Established,
        session_step(state, input).action == SessionAction::Close ==> session_step(state, input).state
            == ConnectionState::Closing,
{
}

/// The sessions that are live after a run of inputs, counted as the tasks
/// opened less the ends reported: the state after the run, the number of
/// tasks opened and the number of ends reported.
pub open spec fn session_run(state: ConnectionState, inputs: Seq<SessionInput>) -> (ConnectionState, nat, nat)
    decreases inputs.len(),
{
    if inputs.len() == 0 {
        (state, 0, 0)
    } else {
        let (before, opened, ended) = session_run(state, inputs.drop_last());
        let step = session_step(before, inputs.last());
        (
            step.state,
            if step.action == SessionAction::Open {
                opened + 1
            } else {
                opened
            },
            if step.ended is Some {
                ended + 1
            } else {
                ended
            },
        )
    }
}

/// Whatever the inputs, a phase that starts disconnected never has more than
/// one live session: every task opened but the last has ended and has been
/// reported, and the last is live exactly if the phase is not disconnected.
pub proof fn lemma_at_most_one_live_session(inputs: Seq<SessionInput>)
    ensures
        ({
            let (state, opened, ended) = session_run(ConnectionState::Disconnected, inputs);
            opened == ended + if state == ConnectionState::Disconnected {
                0nat
            } else {
                1nat
            }
        }),
    decreases inputs.len(),
{
    if inputs.len() > 0 {
        lemma_at_most_one_live_session(inputs.drop_last());
    }
}

} // verus!
