//! Vocabulary shared by every backend: canonical failure reasons and errors.

use vstd::prelude::*;

use crate::wire::{AccountId, CharacterId, ServerAddress, Sex};

verus! {

/// Data required for login server authentication.
#[derive(Debug, Clone, Copy, PartialEq, Eq, Structural)]
pub struct LoginServerLoginData {
    pub account_id: AccountId,
    pub login_id1: u32,
    pub login_id2: u32,
    pub sex: Sex,
}

/// Data received after successful character selection.
#[derive(Debug, Clone, Copy, PartialEq, Eq)]
pub struct CharacterServerLoginData {
    pub server_ip: ServerAddress,
    pub server_port: u16,
    pub character_id: CharacterId,
}

/// Unified login failure reasons across different packet versions.
#[derive(Debug, Clone, Copy, PartialEq, Eq, Structural)]
pub enum UnifiedLoginFailedReason {
    ServerClosed,
    AlreadyLoggedIn,
    AlreadyOnline,
    UnregisteredId,
    IncorrectPassword,
    IdExpired,
    RejectedFromServer,
    BlockedByGMTeam,
    GameOutdated,
    LoginProhibitedUntil,
    ServerFull,
    CompanyAccountLimitReached,
}

/// Unified character selection failure reasons.
#[derive(Debug, Clone, Copy, PartialEq, Eq, Structural)]
pub enum UnifiedCharacterSelectionFailedReason {
    RejectedFromServer,
    MapServerUnavailable,
}

/// Error indicating that an operation was attempted without being connected.
#[derive(Debug, Clone, Copy, PartialEq, Eq, Structural)]
pub struct NotConnectedError;

/// Errors that can occur during gameplay operations.
#[derive(Debug, Clone, Copy, PartialEq, Eq, Structural)]
pub enum GameplayError {
    NotConnected,
    InvalidData,
    OperationFailed,
}

/// Result type for gameplay operations.
pub type GameplayResult<T = ()> = Result<T, GameplayError>;

impl From<NotConnectedError> for GameplayError {
    fn from(_error: NotConnectedError) -> (error: Self)
        ensures
            error == GameplayError::NotConnected,
    {
        GameplayError::NotConnected
    }
}

impl vstd::std_specs::convert::FromSpecImpl<NotConnectedError> for GameplayError {
    open spec fn obeys_from_spec() -> bool {
        true
    }

    open spec fn from_spec(_error: NotConnectedError) -> Self {
        GameplayError::NotConnected
    }
}

/// Packet version support definition.
#[derive(Debug, Clone, Copy, PartialEq, Eq, Structural)]
pub enum SupportedPacketVersion {
    _20220406,
}

} // verus!
