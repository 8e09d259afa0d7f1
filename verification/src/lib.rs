//! Gameplay protocol and event layer of a three-phase MMO client.
//!
//! Decoded packets of the login, character and map server are turned into a
//! backend-agnostic stream of [`GameplayEvent`]s. Both the networked and the
//! offline backend offer the same command surface, [`GameplayProvider`].

pub mod buffer;
pub mod character;
pub mod clock;
pub mod command;
pub mod entity;
pub mod event;
pub mod graphics;
pub mod hotbar;
pub mod inventory;
pub mod items;
pub mod login;
pub mod map;
pub mod map_events;
pub mod network;
pub mod offline;
pub mod provider;
pub mod reason;
pub mod registry;
pub mod session;
pub mod settings;
pub mod text;
pub mod types;
pub mod wire;

pub use crate::buffer::GameplayEventBuffer;
pub use crate::command::{Command, ServerPacket, TransportChange, TransportRequest};
pub use crate::entity::EntityData;
pub use crate::event::{DisconnectReason, GameplayEvent, HandlerOutput, HotkeyState, MessageColor};
pub use crate::items::{InventoryItem, InventoryItemDetails, ItemQuantity, NoMetadata, SellItem, ShopItem};
pub use crate::network::NetworkProvider;
pub use crate::offline::OfflineSystem;
pub use crate::provider::GameplayProvider;
pub use crate::registry::{DuplicateHandlerError, PacketHandlerRegistry, PacketKind};
pub use crate::session::{ConnectionPhase, ConnectionState, NetworkTaskError};
pub use crate::types::{
    CharacterServerLoginData, GameplayError, GameplayResult, LoginServerLoginData, NotConnectedError,
    SupportedPacketVersion, UnifiedCharacterSelectionFailedReason, UnifiedLoginFailedReason,
};
