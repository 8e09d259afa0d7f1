//! The login server: its packets and the events they become.

use vstd::prelude::*;

use crate::event::{GameplayEvent, HandlerOutput};
use crate::reason::{translate_login_failure, unified_login_failure, WireLoginFailure};
use crate::registry::{
    lemma_registered_with_one_more, phase_registered, registered_in_order, registered_next, DuplicateHandlerError,
    Handling, PacketHandlerRegistry, PacketKind,
};
use crate::types::LoginServerLoginData;
use crate::wire::{AccountId, CharacterServerInformation, LoginFailedReason, LoginFailedReason2, Sex};

verus! {

/// A decoded packet of the login server, with the fields the client reads.
#[derive(Debug, PartialEq, Eq)]
pub enum LoginServerPacket {
    LoginServerLoginSuccessPacket {
        character_server_information: Vec<CharacterServerInformation>,
        account_id: AccountId,
        login_id1: u32,
        login_id2: u32,
        sex: Sex,
    },
    LoginFailedPacket { reason: LoginFailedReason },
    LoginFailedPacket2 { reason: LoginFailedReason2 },
}

impl LoginServerPacket {
    pub open spec fn spec_kind(&self) -> PacketKind {
        match self {
            LoginServerPacket::LoginServerLoginSuccessPacket { .. } => PacketKind::LoginServerLoginSuccessPacket,
            LoginServerPacket::LoginFailedPacket { .. } => PacketKind::LoginFailedPacket,
            LoginServerPacket::LoginFailedPacket2 { .. } => PacketKind::LoginFailedPacket2,
        }
    }

    /// The type of the packet.
    #[verifier::when_used_as_spec(spec_kind)]
    pub fn kind(&self) -> (kind: PacketKind)
        ensures
            kind == self.spec_kind(),
    {
        match self {
            LoginServerPacket::LoginServerLoginSuccessPacket { .. } => PacketKind::LoginServerLoginSuccessPacket,
            LoginServerPacket::LoginFailedPacket { .. } => PacketKind::LoginFailedPacket,
            LoginServerPacket::LoginFailedPacket2 { .. } => PacketKind::LoginFailedPacket2,
        }
    }
}

/// The event that a refused login becomes.
pub open spec fn login_failed_event(failure: WireLoginFailure) -> GameplayEvent {
    GameplayEvent::LoginServerConnectionFailed {
        reason: unified_login_failure(failure),
        message: unified_login_failure(failure).message_text(),
    }
}

/// The event that each packet of the login server becomes.
pub open spec fn login_server_event(packet: LoginServerPacket) -> GameplayEvent {
    match packet {
        LoginServerPacket::LoginServerLoginSuccessPacket {
            character_server_information,
            account_id,
            login_id1,
            login_id2,
            sex,
        } => GameplayEvent::LoginServerConnected {
            character_servers: character_server_information,
            login_data: LoginServerLoginData { account_id, login_id1, login_id2, sex },
        },
        LoginServerPacket::LoginFailedPacket { reason } => login_failed_event(WireLoginFailure::First(reason)),
        LoginServerPacket::LoginFailedPacket2 { reason } => login_failed_event(WireLoginFailure::Second(reason)),
    }
}

/// Translates a packet of the login server. Each becomes one event.
pub fn handle_login_server_packet(packet: LoginServerPacket) -> (output: HandlerOutput)
    ensures
        output == HandlerOutput::One(login_server_event(packet)),
{
    match packet {
        LoginServerPacket::LoginServerLoginSuccessPacket {
            character_server_information,
            account_id,
            login_id1,
            login_id2,
            sex,
        } => HandlerOutput::One(
            GameplayEvent::LoginServerConnected {
                character_servers: character_server_information,
                login_data: LoginServerLoginData { account_id, login_id1, login_id2, sex },
            },
        ),
        LoginServerPacket::LoginFailedPacket { reason } => {
            let (reason, message) = translate_login_failure(WireLoginFailure::First(reason));

            HandlerOutput::One(GameplayEvent::LoginServerConnectionFailed { reason, message })
        },
        LoginServerPacket::LoginFailedPacket2 { reason } => {
            let (reason, message) = translate_login_failure(WireLoginFailure::Second(reason));

            HandlerOutput::One(GameplayEvent::LoginServerConnectionFailed { reason, message })
        },
    }
}

/// What the login phase does with each packet type: `None` for a type that
/// the phase does not know.
pub open spec fn login_server_wiring(kind: PacketKind) -> Option<Handling> {
    match kind {
        PacketKind::LoginServerLoginSuccessPacket => Some(Handling::Translate),
        PacketKind::LoginFailedPacket => Some(Handling::Translate),
        PacketKind::LoginFailedPacket2 => Some(Handling::Translate),
        _ => None,
    }
}

/// The registrations of the login phase, in the order in which they are
/// made.
pub open spec fn login_server_registrations() -> Seq<(PacketKind, Handling)> {
    Seq::empty()
        .push((PacketKind::LoginServerLoginSuccessPacket, Handling::Translate))
        .push((PacketKind::LoginFailedPacket, Handling::Translate))
        .push((PacketKind::LoginFailedPacket2, Handling::Translate))
}

/// Registers the packet types of the login phase, in order, up to the first
/// that is registered already.
pub fn register_login_server_packets(packet_handler: &mut PacketHandlerRegistry) -> (registered: Result<
    (),
    DuplicateHandlerError,
>)
    requires
        old(packet_handler).wf(),
    ensures
        final(packet_handler).wf(),
        (registered, final(packet_handler)@) == registered_in_order(
            old(packet_handler)@,
            login_server_registrations(),
        ),
        phase_registered(
            old(packet_handler)@,
            |kind: PacketKind| login_server_wiring(kind),
            registered,
            final(packet_handler)@,
        ),
{
    proof {
        reveal(phase_registered);
        let before = packet_handler@;
        assert forall|entries: Seq<(PacketKind, Handling)>, entry: (PacketKind, Handling)|
            #[trigger] registered_in_order(before, entries.push(entry)) == registered_next(
                registered_in_order(before, entries),
                entry,
            ) by {
            lemma_registered_with_one_more(before, entries, entry);
        }
    }
    packet_handler.register(PacketKind::LoginServerLoginSuccessPacket)?;
    packet_handler.register(PacketKind::LoginFailedPacket)?;
    packet_handler.register(PacketKind::LoginFailedPacket2)?;

    Ok(())
}

} // verus!
