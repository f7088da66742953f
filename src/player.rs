//! The media player: room statistics, the live stream, playback and the
//! playlist, driven by local actions and by the same actions from the room.
//!
//! A local action and its echo from the room are one event with an
//! "also publish" flag. The relay echoes a published action back to its
//! sender too, so an action that is not idempotent (moving through the
//! playlist) is only published locally, and applied when its echo
//! arrives; an idempotent one (play, pause) is applied at once as well.

use vstd::prelude::*;
use vstd::string::StringExecFns;

use crate::opcodes::{OP_NEXT, OP_PAUSE, OP_PLAY, OP_PREV, OpCode};
use crate::video::{MediaPlaylist, PlaylistView, rotated};
use crate::websocket::WrappingWsMessage;

verus! {

/// The room's statistics.
pub struct Stats {
    pub members: usize,
    pub multiplier: String,
}

/// Who streams, and what.
pub struct VideoInfo {
    pub owner: String,
    pub title: String,
}

/// What the media player is told.
pub enum MediaPlayerEvent {
    /// The live stream is ready: its address, or `None` where the
    /// announcement did not decode.
    LiveStream(Option<String>),
    /// New statistics, or `None` where they did not decode.
    StatsUpdate(Option<Stats>),
    /// Move to the next track; `true` to publish the action to the room.
    Next(bool),
    /// Move to the previous track; `true` to publish the action to the room.
    Previous(bool),
    /// Start playback; `true` to publish the action to the room as well.
    Play(bool),
    /// Pause playback; `true` to publish the action to the room as well.
    Pause(bool),
}

impl MediaPlayerEvent {
    /// The event for an action that arrived from the room: it is applied
    /// and never published again. `None` for opcodes the player does not
    /// act on.
    pub fn from_remote(opcode: OpCode) -> (r: Option<MediaPlayerEvent>)
        ensures
            opcode == OP_NEXT ==> r == Some(MediaPlayerEvent::Next(false)),
            opcode == OP_PREV ==> r == Some(MediaPlayerEvent::Previous(false)),
            opcode == OP_PLAY ==> r == Some(MediaPlayerEvent::Play(false)),
            opcode == OP_PAUSE ==> r == Some(MediaPlayerEvent::Pause(false)),
            opcode != OP_NEXT && opcode != OP_PREV && opcode != OP_PLAY && opcode != OP_PAUSE
                ==> r is None,
    {
        if opcode == OP_NEXT {
            Some(MediaPlayerEvent::Next(false))
        } else if opcode == OP_PREV {
            Some(MediaPlayerEvent::Previous(false))
        } else if opcode == OP_PLAY {
            Some(MediaPlayerEvent::Play(false))
        } else if opcode == OP_PAUSE {
            Some(MediaPlayerEvent::Pause(false))
        } else {
            None
        }
    }
}

/// The envelope of an action without payload.
pub open spec fn action_envelope(opcode: OpCode) -> WrappingWsMessage {
    WrappingWsMessage { opcode, payload: None }
}

/// The media player's state.
pub struct MediaPlayer {
    pub is_connected: bool,
    pub stats: Stats,
    pub info: VideoInfo,
    pub stream_url: String,
    /// The stream's announcement could not be read.
    pub abort: bool,
    pub playing: bool,
    pub playlist: MediaPlaylist,
}

impl MediaPlayer {
    /// A player waiting for its stream: one member, no tracks.
    pub fn new(info: VideoInfo) -> (r: MediaPlayer)
        ensures
            !r.is_connected && !r.abort && !r.playing,
            r.stats.members == 1,
            r.stats.multiplier@ == "1x"@,
            r.info == info,
            r.stream_url@ == Seq::<char>::empty(),
            r.playlist@.queued.len() == 0 && r.playlist@.tracks.len() == 0,
    {
        MediaPlayer {
            is_connected: false,
            stats: Stats { members: 1, multiplier: String::from_str("1x") },
            info,
            stream_url: String::new(),
            abort: false,
            playing: false,
            playlist: MediaPlaylist::new(),
        }
    }

    /// Handles one event and returns the envelope to publish to the room,
    /// if any: one for a flagged action, none otherwise. A flagged move
    /// through the playlist only publishes; an unflagged one moves. Play
    /// and pause apply either way.
    pub fn update(&mut self, event: MediaPlayerEvent) -> (r: Option<WrappingWsMessage>)
        ensures
            match event {
                MediaPlayerEvent::LiveStream(None) => r is None && *final(self) == MediaPlayer {
                    abort: true,
                    ..*old(self)
                },
                MediaPlayerEvent::LiveStream(Some(url)) => r is None && *final(self) == MediaPlayer {
                    stream_url: url,
                    is_connected: true,
                    ..*old(self)
                },
                MediaPlayerEvent::StatsUpdate(None) => r is None && *final(self) == *old(self),
                MediaPlayerEvent::StatsUpdate(Some(s)) => r is None && *final(self) == MediaPlayer {
                    stats: s,
                    ..*old(self)
                },
                MediaPlayerEvent::Next(publish) | MediaPlayerEvent::Previous(publish) => {
                    let op = if event is Next {
                        OP_NEXT
                    } else {
                        OP_PREV
                    };
                    if publish {
                        r == Some(action_envelope(op)) && *final(self) == *old(self)
                    } else {
                        &&& r is None
                        &&& final(self).playlist@ == (PlaylistView {
                            tracks: rotated(old(self).playlist@.tracks),
                            ..old(self).playlist@
                        })
                        &&& final(self).playing == old(self).playing
                        &&& final(self).is_connected == old(self).is_connected
                        &&& final(self).abort == old(self).abort
                        &&& final(self).stream_url == old(self).stream_url
                        &&& final(self).stats == old(self).stats
                        &&& final(self).info == old(self).info
                    }
                },
                MediaPlayerEvent::Play(publish) => {
                    &&& r == if publish {
                        Some(action_envelope(OP_PLAY))
                    } else {
                        None
                    }
                    &&& *final(self) == MediaPlayer { playing: true, ..*old(self) }
                },
                MediaPlayerEvent::Pause(publish) => {
                    &&& r == if publish {
                        Some(action_envelope(OP_PAUSE))
                    } else {
                        None
                    }
                    &&& *final(self) == MediaPlayer { playing: false, ..*old(self) }
                },
            },
    {
        match event {
            MediaPlayerEvent::LiveStream(res) => {
                match res {
                    Some(url) => {
                        self.stream_url = url;
                        self.is_connected = true;
                    },
                    None => {
                        self.abort = true;
                    },
                }
                None
            },
            MediaPlayerEvent::StatsUpdate(res) => {
                if let Some(stats) = res {
                    self.stats = stats;
                }
                None
            },
            MediaPlayerEvent::Next(publish) => {
                if publish {
                    return Some(WrappingWsMessage { opcode: OP_NEXT, payload: None });
                }
                self.playlist.rotate_next();
                None
            },
            MediaPlayerEvent::Previous(publish) => {
                if publish {
                    return Some(WrappingWsMessage { opcode: OP_PREV, payload: None });
                }
                self.playlist.rotate_prev();
                None
            },
            MediaPlayerEvent::Play(publish) => {
                self.playing = true;
                if publish {
                    Some(WrappingWsMessage { opcode: OP_PLAY, payload: None })
                } else {
                    None
                }
            },
            MediaPlayerEvent::Pause(publish) => {
                self.playing = false;
                if publish {
                    Some(WrappingWsMessage { opcode: OP_PAUSE, payload: None })
                } else {
                    None
                }
            },
        }
    }
}

} // verus!
