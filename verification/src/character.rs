//! The character server: its packets and the events they become.

use vstd::prelude::*;

use crate::event::{GameplayEvent, HandlerOutput};
use crate::reason::{
    character_creation_failure_message, character_creation_failure_text, character_deletion_failure_message,
    character_deletion_failure_text, character_server_refusal_message, character_server_refusal_text,
    translate_character_selection_failure, unified_character_selection_failure, WireCharacterSelectionFailure,
};
use crate::registry::{
    lemma_registered_with_one_more, phase_registered, registered_in_order, registered_next, DuplicateHandlerError,
    Handling, PacketHandlerRegistry, PacketKind,
};
use crate::types::CharacterServerLoginData;
use crate::wire::{
    CharacterCreationFailedReason, CharacterDeletionFailedReason, CharacterId, CharacterInformation,
    CharacterSelectionFailedReason, LoginFailedReason, ServerAddress, SwitchCharacterSlotResponseStatus,
};

verus! {

/// A decoded packet of the character server, with the fields the client
/// reads.
#[derive(Debug, PartialEq, Eq)]
pub enum CharacterServerPacket {
    LoginFailedPacket { reason: LoginFailedReason },
    CharacterServerLoginSuccessPacket { normal_slot_count: u8 },
    RequestCharacterListSuccessPacket { character_information: Vec<CharacterInformation> },
    CharacterSelectionSuccessPacket { character_id: CharacterId, map_server_ip: ServerAddress, map_server_port: u16 },
    CharacterSelectionFailedPacket { reason: CharacterSelectionFailedReason },
    MapServerUnavailablePacket,
    CreateCharacterSuccessPacket { character_information: CharacterInformation },
    CharacterCreationFailedPacket { reason: CharacterCreationFailedReason },
    CharacterDeletionSuccessPacket,
    CharacterDeletionFailedPacket { reason: CharacterDeletionFailedReason },
    SwitchCharacterSlotResponsePacket { status: SwitchCharacterSlotResponseStatus },
    /// A packet of which the client reads nothing but its type.
    Other(PacketKind),
}

impl CharacterServerPacket {
    pub open spec fn spec_kind(&self) -> PacketKind {
        match self {
            CharacterServerPacket::LoginFailedPacket { .. } => PacketKind::LoginFailedPacket,
            CharacterServerPacket::CharacterServerLoginSuccessPacket { .. } => PacketKind::CharacterServerLoginSuccessPacket,
            CharacterServerPacket::RequestCharacterListSuccessPacket { .. } => PacketKind::RequestCharacterListSuccessPacket,
            CharacterServerPacket::CharacterSelectionSuccessPacket { .. } => PacketKind::CharacterSelectionSuccessPacket,
            CharacterServerPacket::CharacterSelectionFailedPacket { .. } => PacketKind::CharacterSelectionFailedPacket,
            CharacterServerPacket::MapServerUnavailablePacket => PacketKind::MapServerUnavailablePacket,
            CharacterServerPacket::CreateCharacterSuccessPacket { .. } => PacketKind::CreateCharacterSuccessPacket,
            CharacterServerPacket::CharacterCreationFailedPacket { .. } => PacketKind::CharacterCreationFailedPacket,
            CharacterServerPacket::CharacterDeletionSuccessPacket => PacketKind::CharacterDeletionSuccessPacket,
            CharacterServerPacket::CharacterDeletionFailedPacket { .. } => PacketKind::CharacterDeletionFailedPacket,
            CharacterServerPacket::SwitchCharacterSlotResponsePacket { .. } => PacketKind::SwitchCharacterSlotResponsePacket,
            CharacterServerPacket::Other(kind) => *kind,
        }
    }

    /// The type of the packet.
    #[verifier::when_used_as_spec(spec_kind)]
    pub fn kind(&self) -> (kind: PacketKind)
        ensures
            kind == self.spec_kind(),
    {
        match self {
            CharacterServerPacket::LoginFailedPacket { .. } => PacketKind::LoginFailedPacket,
            CharacterServerPacket::CharacterServerLoginSuccessPacket { .. } => PacketKind::CharacterServerLoginSuccessPacket,
            CharacterServerPacket::RequestCharacterListSuccessPacket { .. } => PacketKind::RequestCharacterListSuccessPacket,
            CharacterServerPacket::CharacterSelectionSuccessPacket { .. } => PacketKind::CharacterSelectionSuccessPacket,
            CharacterServerPacket::CharacterSelectionFailedPacket { .. } => PacketKind::CharacterSelectionFailedPacket,
            CharacterServerPacket::MapServerUnavailablePacket => PacketKind::MapServerUnavailablePacket,
            CharacterServerPacket::CreateCharacterSuccessPacket { .. } => PacketKind::CreateCharacterSuccessPacket,
            CharacterServerPacket::CharacterCreationFailedPacket { .. } => PacketKind::CharacterCreationFailedPacket,
            CharacterServerPacket::CharacterDeletionSuccessPacket => PacketKind::CharacterDeletionSuccessPacket,
            CharacterServerPacket::CharacterDeletionFailedPacket { .. } => PacketKind::CharacterDeletionFailedPacket,
            CharacterServerPacket::SwitchCharacterSlotResponsePacket { .. } => PacketKind::SwitchCharacterSlotResponsePacket,
            CharacterServerPacket::Other(kind) => *kind,
        }
    }
}

/// The event that a failed character selection becomes.
pub open spec fn character_selection_failed_event(failure: WireCharacterSelectionFailure) -> GameplayEvent {
    GameplayEvent::CharacterSelectionFailed {
        reason: unified_character_selection_failure(failure),
        message: unified_character_selection_failure(failure).message_text(),
    }
}

/// What each packet of the character server becomes: one event, or nothing
/// for a packet of which only the type is read.
pub open spec fn character_server_output(packet: CharacterServerPacket) -> HandlerOutput {
    match packet {
        CharacterServerPacket::LoginFailedPacket { reason } => HandlerOutput::One(
            GameplayEvent::CharacterServerConnectionFailed { reason, message: character_server_refusal_text(reason) },
        ),
        CharacterServerPacket::CharacterServerLoginSuccessPacket { normal_slot_count } => HandlerOutput::One(
            GameplayEvent::CharacterServerConnected { normal_slot_count: normal_slot_count as usize },
        ),
        CharacterServerPacket::RequestCharacterListSuccessPacket { character_information } => HandlerOutput::One(
            GameplayEvent::CharacterList { characters: character_information },
        ),
        CharacterServerPacket::CharacterSelectionSuccessPacket {
            character_id,
            map_server_ip,
            map_server_port,
        } => HandlerOutput::One(
            GameplayEvent::CharacterSelected {
                login_data: CharacterServerLoginData {
                    server_ip: map_server_ip,
                    server_port: map_server_port,
                    character_id,
                },
            },
        ),
        CharacterServerPacket::CharacterSelectionFailedPacket { reason } => HandlerOutput::One(
            character_selection_failed_event(WireCharacterSelectionFailure::Failed(reason)),
        ),
        CharacterServerPacket::MapServerUnavailablePacket => HandlerOutput::One(
            character_selection_failed_event(WireCharacterSelectionFailure::MapServerUnavailable),
        ),
        CharacterServerPacket::CreateCharacterSuccessPacket { character_information } => HandlerOutput::One(
            GameplayEvent::CharacterCreated { character_information },
        ),
        CharacterServerPacket::CharacterCreationFailedPacket { reason } => HandlerOutput::One(
            GameplayEvent::CharacterCreationFailed { reason, message: character_creation_failure_text(reason) },
        ),
        CharacterServerPacket::CharacterDeletionSuccessPacket => HandlerOutput::One(GameplayEvent::CharacterDeleted),
        CharacterServerPacket::CharacterDeletionFailedPacket { reason } => HandlerOutput::One(
            GameplayEvent::CharacterDeletionFailed { reason, message: character_deletion_failure_text(reason) },
        ),
        CharacterServerPacket::SwitchCharacterSlotResponsePacket { status } => HandlerOutput::One(
            match status {
                SwitchCharacterSlotResponseStatus::Success => GameplayEvent::CharacterSlotSwitched,
                SwitchCharacterSlotResponseStatus::Error => GameplayEvent::CharacterSlotSwitchFailed,
            },
        ),
        CharacterServerPacket::Other(_) => HandlerOutput::Nothing,
    }
}

/// Translates a packet of the character server.
pub fn handle_character_server_packet(packet: CharacterServerPacket) -> (output: HandlerOutput)
    ensures
        output == character_server_output(packet),
{
    match packet {
        CharacterServerPacket::LoginFailedPacket { reason } => {
            let message = character_server_refusal_message(reason);

            HandlerOutput::One(GameplayEvent::CharacterServerConnectionFailed { reason, message })
        },
        CharacterServerPacket::CharacterServerLoginSuccessPacket { normal_slot_count } => HandlerOutput::One(
            GameplayEvent::CharacterServerConnected { normal_slot_count: normal_slot_count as usize },
        ),
        CharacterServerPacket::RequestCharacterListSuccessPacket { character_information } => HandlerOutput::One(
            GameplayEvent::CharacterList { characters: character_information },
        ),
        CharacterServerPacket::CharacterSelectionSuccessPacket { character_id, map_server_ip, map_server_port } => {
            let login_data = CharacterServerLoginData {
                server_ip: map_server_ip,
                server_port: map_server_port,
                character_id,
            };

            HandlerOutput::One(GameplayEvent::CharacterSelected { login_data })
        },
        CharacterServerPacket::CharacterSelectionFailedPacket { reason } => {
            let (reason, message) = translate_character_selection_failure(
                WireCharacterSelectionFailure::Failed(reason),
            );

            HandlerOutput::One(GameplayEvent::CharacterSelectionFailed { reason, message })
        },
        CharacterServerPacket::MapServerUnavailablePacket => {
            let (reason, message) = translate_character_selection_failure(
                WireCharacterSelectionFailure::MapServerUnavailable,
            );

            HandlerOutput::One(GameplayEvent::CharacterSelectionFailed { reason, message })
        },
        CharacterServerPacket::CreateCharacterSuccessPacket { character_information } => HandlerOutput::One(
            GameplayEvent::CharacterCreated { character_information },
        ),
        CharacterServerPacket::CharacterCreationFailedPacket { reason } => {
            let message = character_creation_failure_message(reason);

            HandlerOutput::One(GameplayEvent::CharacterCreationFailed { reason, message })
        },
        CharacterServerPacket::CharacterDeletionSuccessPacket => HandlerOutput::One(GameplayEvent::CharacterDeleted),
        CharacterServerPacket::CharacterDeletionFailedPacket { reason } => {
            let message = character_deletion_failure_message(reason);

            HandlerOutput::One(GameplayEvent::CharacterDeletionFailed { reason, message })
        },
        CharacterServerPacket::SwitchCharacterSlotResponsePacket { status } => match status {
            SwitchCharacterSlotResponseStatus::Success => HandlerOutput::One(GameplayEvent::CharacterSlotSwitched),
            SwitchCharacterSlotResponseStatus::Error => HandlerOutput::One(GameplayEvent::CharacterSlotSwitchFailed),
        },
        CharacterServerPacket::Other(_) => HandlerOutput::Nothing,
    }
}

/// What the character phase does with each packet type: `None` for a type
/// that the phase does not know.
pub open spec fn character_server_wiring(kind: PacketKind) -> Option<Handling> {
    match kind {
        PacketKind::LoginFailedPacket => Some(Handling::Translate),
        PacketKind::CharacterServerLoginSuccessPacket => Some(Handling::Translate),
        PacketKind::RequestCharacterListSuccessPacket => Some(Handling::Translate),
        PacketKind::CharacterListPacket => Some(Handling::Ignore),
        PacketKind::CharacterSlotPagePacket => Some(Handling::Ignore),
        PacketKind::CharacterBanListPacket => Some(Handling::Ignore),
        PacketKind::LoginPincodePacket => Some(Handling::Ignore),
        PacketKind::Packet0b18 => Some(Handling::Ignore),
        PacketKind::CharacterSelectionSuccessPacket => Some(Handling::Translate),
        PacketKind::CharacterSelectionFailedPacket => Some(Handling::Translate),
        PacketKind::MapServerUnavailablePacket => Some(Handling::Translate),
        PacketKind::CreateCharacterSuccessPacket => Some(Handling::Translate),
        PacketKind::CharacterCreationFailedPacket => Some(Handling::Translate),
        PacketKind::CharacterDeletionSuccessPacket => Some(Handling::Translate),
        PacketKind::CharacterDeletionFailedPacket => Some(Handling::Translate),
        PacketKind::SwitchCharacterSlotResponsePacket => Some(Handling::Translate),
        _ => None,
    }
}

/// The registrations of the character phase, in the order in which they are
/// made.
pub open spec fn character_server_registrations() -> Seq<(PacketKind, Handling)> {
    Seq::empty()
        .push((PacketKind::LoginFailedPacket, Handling::Translate))
        .push((PacketKind::CharacterServerLoginSuccessPacket, Handling::Translate))
        .push((PacketKind::RequestCharacterListSuccessPacket, Handling::Translate))
        .push((PacketKind::CharacterListPacket, Handling::Ignore))
        .push((PacketKind::CharacterSlotPagePacket, Handling::Ignore))
        .push((PacketKind::CharacterBanListPacket, Handling::Ignore))
        .push((PacketKind::LoginPincodePacket, Handling::Ignore))
        .push((PacketKind::Packet0b18, Handling::Ignore))
        .push((PacketKind::CharacterSelectionSuccessPacket, Handling::Translate))
        .push((PacketKind::CharacterSelectionFailedPacket, Handling::Translate))
        .push((PacketKind::MapServerUnavailablePacket, Handling::Translate))
        .push((PacketKind::CreateCharacterSuccessPacket, Handling::Translate))
        .push((PacketKind::CharacterCreationFailedPacket, Handling::Translate))
        .push((PacketKind::CharacterDeletionSuccessPacket, Handling::Translate))
        .push((PacketKind::CharacterDeletionFailedPacket, Handling::Translate))
        .push((PacketKind::SwitchCharacterSlotResponsePacket, Handling::Translate))
}

/// Registers the packet types of the character phase, in order, up to the
/// first that is registered already.
pub fn register_character_server_packets(packet_handler: &mut PacketHandlerRegistry) -> (registered: Result<
    (),
    DuplicateHandlerError,
>)
    requires
        old(packet_handler).wf(),
    ensures
        final(packet_handler).wf(),
        (registered, final(packet_handler)@) == registered_in_order(
            old(packet_handler)@,
            character_server_registrations(),
        ),
        phase_registered(
            old(packet_handler)@,
            |kind: PacketKind| character_server_wiring(kind),
            registered,
            final(packet_handler)@,
        ),
{
    proof {
        reveal(phase_registered);
        let before = packet_handler@;
        assert forall|entries: Seq<(PacketKind, Handling)>, entry: (PacketKind, Handling)|
            #[trigger] registered_in_order(before, entries.push(entry)) == registered_next(
                registered_in_order(before, entries),
                entry,
            ) by {
            lemma_registered_with_one_more(before, entries, entry);
        }
    }
    packet_handler.register(PacketKind::LoginFailedPacket)?;
    packet_handler.register(PacketKind::CharacterServerLoginSuccessPacket)?;
    packet_handler.register(PacketKind::RequestCharacterListSuccessPacket)?;
    packet_handler.register_noop(PacketKind::CharacterListPacket)?;
    packet_handler.register_noop(PacketKind::CharacterSlotPagePacket)?;
    packet_handler.register_noop(PacketKind::CharacterBanListPacket)?;
    packet_handler.register_noop(PacketKind::LoginPincodePacket)?;
    packet_handler.register_noop(PacketKind::Packet0b18)?;
    packet_handler.register(PacketKind::CharacterSelectionSuccessPacket)?;
    packet_handler.register(PacketKind::CharacterSelectionFailedPacket)?;
    packet_handler.register(PacketKind::MapServerUnavailablePacket)?;
    packet_handler.register(PacketKind::CreateCharacterSuccessPacket)?;
    packet_handler.register(PacketKind::CharacterCreationFailedPacket)?;
    packet_handler.register(PacketKind::CharacterDeletionSuccessPacket)?;
    packet_handler.register(PacketKind::CharacterDeletionFailedPacket)?;
    packet_handler.register(PacketKind::SwitchCharacterSlotResponsePacket)?;

    Ok(())
}

} // verus!
