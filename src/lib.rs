//! Client-side core of a synchronised watch-party room: the message
//! channel shared by the room's feature modules, and those modules' state.

pub mod banner;
pub mod chat;
pub mod opcodes;
pub mod player;
pub mod settings;
pub mod video;
pub mod websocket;
