//! The connection banner: what the user is told about the relay connection.

use vstd::prelude::*;

use crate::websocket::WebsocketStatus;

verus! {

/// What the banner is told.
pub enum WsEventMessages {
    /// The connection's status changed.
    Status(WebsocketStatus),
    /// The banner is to be hidden (a click, or its timeout).
    Hide,
}

/// The banner's state.
#[derive(Clone, Copy, Debug, PartialEq, Eq, Structural)]
pub struct WsEventDisplay {
    pub hide: bool,
    pub connected: bool,
    pub connecting: bool,
    pub connection_dead: bool,
}

impl WsEventDisplay {
    /// The banner shows "connecting" until the first status arrives.
    pub fn new() -> (r: WsEventDisplay)
        ensures
            r == (WsEventDisplay { hide: false, connected: false, connecting: true, connection_dead: false }),
    {
        WsEventDisplay { hide: false, connected: false, connecting: true, connection_dead: false }
    }

    /// A status shows the banner again, saying connecting, connected or
    /// dead. A hide request hides it, but only while connected: a banner
    /// that reports trouble stays. Returns whether to redraw (always).
    pub fn update(&mut self, msg: WsEventMessages) -> (r: bool)
        ensures
            r,
            match msg {
                WsEventMessages::Status(status) => *final(self) == WsEventDisplay {
                    hide: false,
                    connected: status == WebsocketStatus::Connect,
                    connecting: status == WebsocketStatus::Disconnect,
                    connection_dead: status == WebsocketStatus::ClosedPermanently,
                },
                WsEventMessages::Hide => *final(self) == WsEventDisplay {
                    hide: old(self).hide || old(self).connected,
                    ..*old(self)
                },
            },
    {
        match msg {
            WsEventMessages::Status(status) => {
                match status {
                    WebsocketStatus::Connect => {
                        self.connecting = false;
                        self.connected = true;
                        self.connection_dead = false;
                    },
                    WebsocketStatus::Disconnect => {
                        self.connecting = true;
                        self.connected = false;
                        self.connection_dead = false;
                    },
                    WebsocketStatus::ClosedPermanently => {
                        self.connecting = false;
                        self.connected = false;
                        self.connection_dead = true;
                    },
                }
                self.hide = false;
            },
            WsEventMessages::Hide => {
                if self.connected {
                    self.hide = true;
                }
            },
        }
        true
    }
}

} // verus!
