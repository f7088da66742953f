//! Where the relay, the site API and the room pages live.

use vstd::prelude::*;
use vstd::string::{StrSliceExecFns, StringExecFns};

verus! {

pub const SCHEMA: &'static str = "https";

pub const DOMAIN: &'static str = "spooderfy.com";

pub const GATEWAY_DOMAIN: &'static str = "gateway.spooderfy.com";

pub const WS_PATH: &'static str = "/ws";

pub const API_PATH: &'static str = "/api";

/// Subscriber group of the connection-status banner.
pub const EVENT_DISPLAY_ID: usize = 0;

/// Subscriber group of the chat room.
pub const CHAT_ID: usize = 1;

/// Subscriber group of the media player.
pub const PLAYER_ID: usize = 2;

/// The relay endpoint that fans an event out to every socket of `room_id`.
pub fn get_emit_url(room_id: &str) -> (r: String)
    ensures
        r@ == SCHEMA@ + "://"@ + GATEWAY_DOMAIN@ + "/emit/"@ + room_id@,
{
    let mut r = String::from_str(SCHEMA);
    r.append("://");
    r.append(GATEWAY_DOMAIN);
    r.append("/emit/");
    r.append(room_id);
    r
}

/// The relay socket of `room_id`.
pub fn get_ws_url(room_id: &str) -> (r: String)
    ensures
        r@ == "wss://"@ + GATEWAY_DOMAIN@ + WS_PATH@ + "/"@ + room_id@,
{
    let mut r = String::from_str("wss://");
    r.append(GATEWAY_DOMAIN);
    r.append(WS_PATH);
    r.append("/");
    r.append(room_id);
    r
}

/// The site API's base address.
pub open spec fn api_base() -> Seq<char> {
    SCHEMA@ + "://"@ + DOMAIN@ + API_PATH@
}

fn api_base_string() -> (r: String)
    ensures
        r@ == api_base(),
{
    let mut r = String::from_str(SCHEMA);
    r.append("://");
    r.append(DOMAIN);
    r.append(API_PATH);
    r
}

/// Where the chat webhook of `room_id` is looked up.
pub fn get_webhook_api(room_id: &str) -> (r: String)
    ensures
        r@ == api_base() + "/room/"@ + room_id@ + "/webhook"@,
{
    let mut r = api_base_string();
    r.append("/room/");
    r.append(room_id);
    r.append("/webhook");
    r
}

/// Where the live-stream source of `room_id` is looked up.
pub fn get_stream_api_url(room_id: &str) -> (r: String)
    ensures
        r@ == api_base() + "/room/"@ + room_id@ + "/stream"@,
{
    let mut r = api_base_string();
    r.append("/room/");
    r.append(room_id);
    r.append("/stream");
    r
}

/// Where the signed-in user's identity is looked up.
pub fn get_who_am_i_url() -> (r: String)
    ensures
        r@ == api_base() + "/@me"@,
{
    let mut r = api_base_string();
    r.append("/@me");
    r
}

/// The address under which every room page lives.
pub open spec fn room_url() -> Seq<char> {
    SCHEMA@ + "://"@ + DOMAIN@ + "/room"@
}

/// The address under which every room page lives.
pub fn get_room_url() -> (r: String)
    ensures
        r@ == room_url(),
{
    let mut r = String::from_str(SCHEMA);
    r.append("://");
    r.append(DOMAIN);
    r.append("/room");
    r
}

/// The room id of a room page's address: what follows the room address
/// and one separator. `None` where the address is too short to hold one.
pub fn room_id_from_url(url: &str) -> (r: Option<String>)
    ensures
        ({
            let n = room_url().len() as int + 1;
            &&& r is Some <==> n <= url@.len()
            &&& r matches Some(id) ==> id@ == url@.subrange(n, url@.len() as int)
        }),
{
    let base = get_room_url();
    let base_len = base.as_str().unicode_len();
    let len = url.unicode_len();
    if base_len >= len {
        return None;
    }
    Some(url.substring_char(base_len + 1, len).to_owned())
}

} // verus!
