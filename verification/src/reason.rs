//! Translation of the failure reasons that the servers send, in whatever
//! shape an epoch of the protocol gave them, into the client's own reasons
//! and their fixed messages.

use vstd::prelude::*;

use crate::types::{UnifiedCharacterSelectionFailedReason, UnifiedLoginFailedReason};
use crate::wire::{
    CharacterCreationFailedReason, CharacterDeletionFailedReason, CharacterSelectionFailedReason, LoginFailedReason,
    LoginFailedReason2,
};

verus! {

/// A login failure in either of the two shapes the protocol has had.
#[derive(Debug, Clone, Copy, PartialEq, Eq, Structural)]
pub enum WireLoginFailure {
    First(LoginFailedReason),
    Second(LoginFailedReason2),
}

/// A failed character selection in either of the two packets that report one.
#[derive(Debug, Clone, Copy, PartialEq, Eq, Structural)]
pub enum WireCharacterSelectionFailure {
    Failed(CharacterSelectionFailedReason),
    MapServerUnavailable,
}

impl UnifiedLoginFailedReason {
    /// The fixed, ready-to-display text of each reason.
    pub open spec fn message_text(self) -> &'static str {
        match self {
            UnifiedLoginFailedReason::ServerClosed => "Server closed",
            UnifiedLoginFailedReason::AlreadyLoggedIn => "Someone has already logged in with this id",
            UnifiedLoginFailedReason::AlreadyOnline => "Already online",
            UnifiedLoginFailedReason::UnregisteredId => "Unregistered id",
            UnifiedLoginFailedReason::IncorrectPassword => "Incorrect password",
            UnifiedLoginFailedReason::IdExpired => "Id has expired",
            UnifiedLoginFailedReason::RejectedFromServer => "Rejected from server",
            UnifiedLoginFailedReason::BlockedByGMTeam => "Blocked by gm team",
            UnifiedLoginFailedReason::GameOutdated => "Game outdated",
            UnifiedLoginFailedReason::LoginProhibitedUntil => "Login prohibited until",
            UnifiedLoginFailedReason::ServerFull => "Server is full",
            UnifiedLoginFailedReason::CompanyAccountLimitReached => "Company account limit reached",
        }
    }

    /// Returns the message shown to the user for this reason.
    pub fn message(self) -> (text: &'static str)
        ensures
            text == self.message_text(),
    {
        match self {
            UnifiedLoginFailedReason::ServerClosed => "Server closed",
            UnifiedLoginFailedReason::AlreadyLoggedIn => "Someone has already logged in with this id",
            UnifiedLoginFailedReason::AlreadyOnline => "Already online",
            UnifiedLoginFailedReason::UnregisteredId => "Unregistered id",
            UnifiedLoginFailedReason::IncorrectPassword => "Incorrect password",
            UnifiedLoginFailedReason::IdExpired => "Id has expired",
            UnifiedLoginFailedReason::RejectedFromServer => "Rejected from server",
            UnifiedLoginFailedReason::BlockedByGMTeam => "Blocked by gm team",
            UnifiedLoginFailedReason::GameOutdated => "Game outdated",
            UnifiedLoginFailedReason::LoginProhibitedUntil => "Login prohibited until",
            UnifiedLoginFailedReason::ServerFull => "Server is full",
            UnifiedLoginFailedReason::CompanyAccountLimitReached => "Company account limit reached",
        }
    }
}

/// The client's reason for each login failure of the wire.
pub open spec fn unified_login_failure(failure: WireLoginFailure) -> UnifiedLoginFailedReason {
    match failure {
        WireLoginFailure::First(LoginFailedReason::ServerClosed) => UnifiedLoginFailedReason::ServerClosed,
        WireLoginFailure::First(LoginFailedReason::AlreadyLoggedIn) => UnifiedLoginFailedReason::AlreadyLoggedIn,
        WireLoginFailure::First(LoginFailedReason::AlreadyOnline) => UnifiedLoginFailedReason::AlreadyOnline,
        WireLoginFailure::Second(LoginFailedReason2::UnregisteredId) => UnifiedLoginFailedReason::UnregisteredId,
        WireLoginFailure::Second(LoginFailedReason2::IncorrectPassword) => UnifiedLoginFailedReason::IncorrectPassword,
        WireLoginFailure::Second(LoginFailedReason2::IdExpired) => UnifiedLoginFailedReason::IdExpired,
        WireLoginFailure::Second(LoginFailedReason2::RejectedFromServer) => UnifiedLoginFailedReason::RejectedFromServer,
        WireLoginFailure::Second(LoginFailedReason2::BlockedByGMTeam) => UnifiedLoginFailedReason::BlockedByGMTeam,
        WireLoginFailure::Second(LoginFailedReason2::GameOutdated) => UnifiedLoginFailedReason::GameOutdated,
        WireLoginFailure::Second(LoginFailedReason2::LoginProhibitedUntil) => UnifiedLoginFailedReason::LoginProhibitedUntil,
        WireLoginFailure::Second(LoginFailedReason2::ServerFull) => UnifiedLoginFailedReason::ServerFull,
        WireLoginFailure::Second(LoginFailedReason2::CompanyAccountLimitReached) => UnifiedLoginFailedReason::CompanyAccountLimitReached,
    }
}

/// The wire failure that a reason of the client stands for.
pub open spec fn wire_login_failure(reason: UnifiedLoginFailedReason) -> WireLoginFailure {
    match reason {
        UnifiedLoginFailedReason::ServerClosed => WireLoginFailure::First(LoginFailedReason::ServerClosed),
        UnifiedLoginFailedReason::AlreadyLoggedIn => WireLoginFailure::First(LoginFailedReason::AlreadyLoggedIn),
        UnifiedLoginFailedReason::AlreadyOnline => WireLoginFailure::First(LoginFailedReason::AlreadyOnline),
        UnifiedLoginFailedReason::UnregisteredId => WireLoginFailure::Second(LoginFailedReason2::UnregisteredId),
        UnifiedLoginFailedReason::IncorrectPassword => WireLoginFailure::Second(LoginFailedReason2::IncorrectPassword),
        UnifiedLoginFailedReason::IdExpired => WireLoginFailure::Second(LoginFailedReason2::IdExpired),
        UnifiedLoginFailedReason::RejectedFromServer => WireLoginFailure::Second(LoginFailedReason2::RejectedFromServer),
        UnifiedLoginFailedReason::BlockedByGMTeam => WireLoginFailure::Second(LoginFailedReason2::BlockedByGMTeam),
        UnifiedLoginFailedReason::GameOutdated => WireLoginFailure::Second(LoginFailedReason2::GameOutdated),
        UnifiedLoginFailedReason::LoginProhibitedUntil => WireLoginFailure::Second(LoginFailedReason2::LoginProhibitedUntil),
        UnifiedLoginFailedReason::ServerFull => WireLoginFailure::Second(LoginFailedReason2::ServerFull),
        UnifiedLoginFailedReason::CompanyAccountLimitReached => WireLoginFailure::Second(LoginFailedReason2::CompanyAccountLimitReached),
    }
}

/// Every login failure of the wire has exactly one reason of the client, and
/// no two failures share one: going to the client's reason and back gives the
/// failure again, and the other way round.
pub proof fn lemma_login_translation_is_one_to_one(failure: WireLoginFailure, reason: UnifiedLoginFailedReason)
    ensures
        wire_login_failure(unified_login_failure(failure)) == failure,
        unified_login_failure(wire_login_failure(reason)) == reason,
{
}

/// Two login failures that differ are told apart by the client's reasons.
pub proof fn lemma_login_translation_is_injective(first: WireLoginFailure, second: WireLoginFailure)
    requires
        first != second,
    ensures
        unified_login_failure(first) != unified_login_failure(second),
{
    lemma_login_translation_is_one_to_one(first, UnifiedLoginFailedReason::ServerClosed);
    lemma_login_translation_is_one_to_one(second, UnifiedLoginFailedReason::ServerClosed);
}

/// Translates a login failure into the client's reason and its message.
pub fn translate_login_failure(failure: WireLoginFailure) -> (translated: (UnifiedLoginFailedReason, &'static str))
    ensures
        translated.0 == unified_login_failure(failure),
        translated.1 == translated.0.message_text(),
{
    match failure {
        WireLoginFailure::First(reason) => match reason {
            LoginFailedReason::ServerClosed => (UnifiedLoginFailedReason::ServerClosed, "Server closed"),
            LoginFailedReason::AlreadyLoggedIn => (
                UnifiedLoginFailedReason::AlreadyLoggedIn,
                "Someone has already logged in with this id",
            ),
            LoginFailedReason::AlreadyOnline => (UnifiedLoginFailedReason::AlreadyOnline, "Already online"),
        },
        WireLoginFailure::Second(reason) => match reason {
            LoginFailedReason2::UnregisteredId => (UnifiedLoginFailedReason::UnregisteredId, "Unregistered id"),
            LoginFailedReason2::IncorrectPassword => (UnifiedLoginFailedReason::IncorrectPassword, "Incorrect password"),
            LoginFailedReason2::IdExpired => (UnifiedLoginFailedReason::IdExpired, "Id has expired"),
            LoginFailedReason2::RejectedFromServer => (UnifiedLoginFailedReason::RejectedFromServer, "Rejected from server"),
            LoginFailedReason2::BlockedByGMTeam => (UnifiedLoginFailedReason::BlockedByGMTeam, "Blocked by gm team"),
            LoginFailedReason2::GameOutdated => (UnifiedLoginFailedReason::GameOutdated, "Game outdated"),
            LoginFailedReason2::LoginProhibitedUntil => (UnifiedLoginFailedReason::LoginProhibitedUntil, "Login prohibited until"),
            LoginFailedReason2::ServerFull => (UnifiedLoginFailedReason::ServerFull, "Server is full"),
            LoginFailedReason2::CompanyAccountLimitReached => (
                UnifiedLoginFailedReason::CompanyAccountLimitReached,
                "Company account limit reached",
            ),
        },
    }
}

/// The client's reason for each failed character selection of the wire.
pub open spec fn unified_character_selection_failure(
    failure: WireCharacterSelectionFailure,
) -> UnifiedCharacterSelectionFailedReason {
    match failure {
        WireCharacterSelectionFailure::Failed(CharacterSelectionFailedReason::RejectedFromServer) => {
            UnifiedCharacterSelectionFailedReason::RejectedFromServer
        },
        WireCharacterSelectionFailure::MapServerUnavailable => UnifiedCharacterSelectionFailedReason::MapServerUnavailable,
    }
}

/// The wire failure that a reason of the client stands for.
pub open spec fn wire_character_selection_failure(
    reason: UnifiedCharacterSelectionFailedReason,
) -> WireCharacterSelectionFailure {
    match reason {
        UnifiedCharacterSelectionFailedReason::RejectedFromServer => WireCharacterSelectionFailure::Failed(
            CharacterSelectionFailedReason::RejectedFromServer,
        ),
        UnifiedCharacterSelectionFailedReason::MapServerUnavailable => WireCharacterSelectionFailure::MapServerUnavailable,
    }
}

/// Every failed character selection of the wire has exactly one reason of
/// the client, and no two share one.
pub proof fn lemma_character_selection_translation_is_one_to_one(
    failure: WireCharacterSelectionFailure,
    reason: UnifiedCharacterSelectionFailedReason,
)
    ensures
        wire_character_selection_failure(unified_character_selection_failure(failure)) == failure,
        unified_character_selection_failure(wire_character_selection_failure(reason)) == reason,
{
}

impl UnifiedCharacterSelectionFailedReason {
    /// The fixed, ready-to-display text of each reason.
    pub open spec fn message_text(self) -> &'static str {
        match self {
            UnifiedCharacterSelectionFailedReason::RejectedFromServer => "Rejected from server",
            UnifiedCharacterSelectionFailedReason::MapServerUnavailable => "Map server currently unavailable",
        }
    }

    /// Returns the message shown to the user for this reason.
    pub fn message(self) -> (text: &'static str)
        ensures
            text == self.message_text(),
    {
        match self {
            UnifiedCharacterSelectionFailedReason::RejectedFromServer => "Rejected from server",
            UnifiedCharacterSelectionFailedReason::MapServerUnavailable => "Map server currently unavailable",
        }
    }
}

/// Translates a failed character selection into the client's reason and its
/// message.
pub fn translate_character_selection_failure(failure: WireCharacterSelectionFailure) -> (translated: (
    UnifiedCharacterSelectionFailedReason,
    &'static str,
))
    ensures
        translated.0 == unified_character_selection_failure(failure),
        translated.1 == translated.0.message_text(),
{
    match failure {
        WireCharacterSelectionFailure::Failed(reason) => match reason {
            CharacterSelectionFailedReason::RejectedFromServer => (
                UnifiedCharacterSelectionFailedReason::RejectedFromServer,
                "Rejected from server",
            ),
        },
        WireCharacterSelectionFailure::MapServerUnavailable => (
            UnifiedCharacterSelectionFailedReason::MapServerUnavailable,
            "Map server currently unavailable",
        ),
    }
}

/// The text with which the character server's refusal of a login is shown.
pub open spec fn character_server_refusal_text(reason: LoginFailedReason) -> &'static str {
    unified_login_failure(WireLoginFailure::First(reason)).message_text()
}

/// Returns the message for the character server's refusal of a login.
pub fn character_server_refusal_message(reason: LoginFailedReason) -> (text: &'static str)
    ensures
        text == character_server_refusal_text(reason),
{
    match reason {
        LoginFailedReason::ServerClosed => "Server closed",
        LoginFailedReason::AlreadyLoggedIn => "Someone has already logged in with this id",
        LoginFailedReason::AlreadyOnline => "Already online",
    }
}

/// The text with which a failed character creation is shown.
pub open spec fn character_creation_failure_text(reason: CharacterCreationFailedReason) -> &'static str {
    match reason {
        CharacterCreationFailedReason::CharacterNameAlreadyUsed => "Character name is already used",
        CharacterCreationFailedReason::NotOldEnough => "You are not old enough to create a character",
        CharacterCreationFailedReason::NotAllowedToUseSlot => "You are not allowed to use this character slot",
        CharacterCreationFailedReason::CharacterCerationFailed => "Character creation failed",
    }
}

/// Returns the message for a failed character creation.
pub fn character_creation_failure_message(reason: CharacterCreationFailedReason) -> (text: &'static str)
    ensures
        text == character_creation_failure_text(reason),
{
    match reason {
        CharacterCreationFailedReason::CharacterNameAlreadyUsed => "Character name is already used",
        CharacterCreationFailedReason::NotOldEnough => "You are not old enough to create a character",
        CharacterCreationFailedReason::NotAllowedToUseSlot => "You are not allowed to use this character slot",
        CharacterCreationFailedReason::CharacterCerationFailed => "Character creation failed",
    }
}

/// The text with which a failed character deletion is shown.
pub open spec fn character_deletion_failure_text(reason: CharacterDeletionFailedReason) -> &'static str {
    match reason {
        CharacterDeletionFailedReason::NotAllowed => "You are not allowed to delete this character",
        CharacterDeletionFailedReason::CharacterNotFound => "Character was not found",
        CharacterDeletionFailedReason::NotEligible => "Character is not eligible for deletion",
    }
}

/// Returns the message for a failed character deletion.
pub fn character_deletion_failure_message(reason: CharacterDeletionFailedReason) -> (text: &'static str)
    ensures
        text == character_deletion_failure_text(reason),
{
    match reason {
        CharacterDeletionFailedReason::NotAllowed => "You are not allowed to delete this character",
        CharacterDeletionFailedReason::CharacterNotFound => "Character was not found",
        CharacterDeletionFailedReason::NotEligible => "Character is not eligible for deletion",
    }
}

} // verus!
