//! The room's message channel: one relay connection whose inbound messages
//! fan out to every feature module subscribed to their opcode.

pub mod identifiers;
pub mod queues;
pub mod table;
pub mod ws;

pub use identifiers::{SinkId, Subscriber, WebsocketMessage, WebsocketStatus};
pub use ws::{InternalWebSocket, WrappingWsMessage};
