use korangar_gameplay::login::{handle_login_server_packet, LoginServerPacket};
use korangar_gameplay::reason::{
    character_creation_failure_message, character_deletion_failure_message, character_server_refusal_message,
    translate_character_selection_failure, translate_login_failure, WireCharacterSelectionFailure, WireLoginFailure,
};
use korangar_gameplay::wire::{
    CharacterCreationFailedReason, CharacterDeletionFailedReason, CharacterSelectionFailedReason, LoginFailedReason,
    LoginFailedReason2,
};
use korangar_gameplay::{
    GameplayError, GameplayEvent, HandlerOutput, NotConnectedError, UnifiedCharacterSelectionFailedReason,
    UnifiedLoginFailedReason,
};

fn every_login_failure() -> Vec<(WireLoginFailure, UnifiedLoginFailedReason, &'static str)> {
    vec![
        (
            WireLoginFailure::First(LoginFailedReason::ServerClosed),
            UnifiedLoginFailedReason::ServerClosed,
            "Server closed",
        ),
        (
            WireLoginFailure::First(LoginFailedReason::AlreadyLoggedIn),
            UnifiedLoginFailedReason::AlreadyLoggedIn,
            "Someone has already logged in with this id",
        ),
        (
            WireLoginFailure::First(LoginFailedReason::AlreadyOnline),
            UnifiedLoginFailedReason::AlreadyOnline,
            "Already online",
        ),
        (
            WireLoginFailure::Second(LoginFailedReason2::UnregisteredId),
            UnifiedLoginFailedReason::UnregisteredId,
            "Unregistered id",
        ),
        (
            WireLoginFailure::Second(LoginFailedReason2::IncorrectPassword),
            UnifiedLoginFailedReason::IncorrectPassword,
            "Incorrect password",
        ),
        (
            WireLoginFailure::Second(LoginFailedReason2::IdExpired),
            UnifiedLoginFailedReason::IdExpired,
            "Id has expired",
        ),
        (
            WireLoginFailure::Second(LoginFailedReason2::RejectedFromServer),
            UnifiedLoginFailedReason::RejectedFromServer,
            "Rejected from server",
        ),
        (
            WireLoginFailure::Second(LoginFailedReason2::BlockedByGMTeam),
            UnifiedLoginFailedReason::BlockedByGMTeam,
            "Blocked by gm team",
        ),
        (
            WireLoginFailure::Second(LoginFailedReason2::GameOutdated),
            UnifiedLoginFailedReason::GameOutdated,
            "Game outdated",
        ),
        (
            WireLoginFailure::Second(LoginFailedReason2::LoginProhibitedUntil),
            UnifiedLoginFailedReason::LoginProhibitedUntil,
            "Login prohibited until",
        ),
        (
            WireLoginFailure::Second(LoginFailedReason2::ServerFull),
            UnifiedLoginFailedReason::ServerFull,
            "Server is full",
        ),
        (
            WireLoginFailure::Second(LoginFailedReason2::CompanyAccountLimitReached),
            UnifiedLoginFailedReason::CompanyAccountLimitReached,
            "Company account limit reached",
        ),
    ]
}

#[test]
fn every_wire_login_failure_has_its_reason_and_message() {
    for (failure, reason, message) in every_login_failure() {
        assert_eq!(translate_login_failure(failure), (reason, message));
        assert_eq!(reason.message(), message);
    }
}

#[test]
fn no_two_wire_login_failures_share_a_reason() {
    let all = every_login_failure();
    assert_eq!(all.len(), 12);
    for (i, first) in all.iter().enumerate() {
        for second in all.iter().skip(i + 1) {
            assert_ne!(translate_login_failure(first.0).0, translate_login_failure(second.0).0);
        }
    }
}

#[test]
fn incorrect_password_is_reported_with_its_message() {
    let packet = LoginServerPacket::LoginFailedPacket2 { reason: LoginFailedReason2::IncorrectPassword };
    assert_eq!(
        handle_login_server_packet(packet),
        HandlerOutput::One(GameplayEvent::LoginServerConnectionFailed {
            reason: UnifiedLoginFailedReason::IncorrectPassword,
            message: "Incorrect password",
        })
    );
}

#[test]
fn first_epoch_login_failure_is_reported_with_its_message() {
    let packet = LoginServerPacket::LoginFailedPacket { reason: LoginFailedReason::AlreadyLoggedIn };
    assert_eq!(
        handle_login_server_packet(packet),
        HandlerOutput::One(GameplayEvent::LoginServerConnectionFailed {
            reason: UnifiedLoginFailedReason::AlreadyLoggedIn,
            message: "Someone has already logged in with this id",
        })
    );
}

#[test]
fn character_selection_failures_have_their_reason_and_message() {
    assert_eq!(
        translate_character_selection_failure(WireCharacterSelectionFailure::Failed(
            CharacterSelectionFailedReason::RejectedFromServer
        )),
        (UnifiedCharacterSelectionFailedReason::RejectedFromServer, "Rejected from server")
    );
    assert_eq!(
        translate_character_selection_failure(WireCharacterSelectionFailure::MapServerUnavailable),
        (UnifiedCharacterSelectionFailedReason::MapServerUnavailable, "Map server currently unavailable")
    );
    assert_eq!(UnifiedCharacterSelectionFailedReason::RejectedFromServer.message(), "Rejected from server");
    assert_eq!(
        UnifiedCharacterSelectionFailedReason::MapServerUnavailable.message(),
        "Map server currently unavailable"
    );
}

#[test]
fn character_server_refusals_have_their_messages() {
    assert_eq!(character_server_refusal_message(LoginFailedReason::ServerClosed), "Server closed");
    assert_eq!(
        character_server_refusal_message(LoginFailedReason::AlreadyLoggedIn),
        "Someone has already logged in with this id"
    );
    assert_eq!(character_server_refusal_message(LoginFailedReason::AlreadyOnline), "Already online");
}

#[test]
fn character_creation_failures_have_their_messages() {
    assert_eq!(
        character_creation_failure_message(CharacterCreationFailedReason::CharacterNameAlreadyUsed),
        "Character name is already used"
    );
    assert_eq!(
        character_creation_failure_message(CharacterCreationFailedReason::NotOldEnough),
        "You are not old enough to create a character"
    );
    assert_eq!(
        character_creation_failure_message(CharacterCreationFailedReason::NotAllowedToUseSlot),
        "You are not allowed to use this character slot"
    );
    assert_eq!(
        character_creation_failure_message(CharacterCreationFailedReason::CharacterCerationFailed),
        "Character creation failed"
    );
}

#[test]
fn character_deletion_failures_have_their_messages() {
    assert_eq!(
        character_deletion_failure_message(CharacterDeletionFailedReason::NotAllowed),
        "You are not allowed to delete this character"
    );
    assert_eq!(
        character_deletion_failure_message(CharacterDeletionFailedReason::CharacterNotFound),
        "Character was not found"
    );
    assert_eq!(
        character_deletion_failure_message(CharacterDeletionFailedReason::NotEligible),
        "Character is not eligible for deletion"
    );
}

#[test]
fn not_connected_becomes_a_gameplay_error() {
    assert_eq!(GameplayError::from(NotConnectedError), GameplayError::NotConnected);
    assert_ne!(GameplayError::from(NotConnectedError), GameplayError::InvalidData);
    assert_ne!(GameplayError::from(NotConnectedError), GameplayError::OperationFailed);
}
