use spooderfy::banner::{WsEventDisplay, WsEventMessages};
use spooderfy::chat::{ChatRoom, Message, TextInput, TextInputEvents, UserInfo, Webhook, MAX_MESSAGE_KEYS};
use spooderfy::opcodes::{OP_NEXT, OP_PAUSE, OP_PLAY, OP_PREV, OP_SEEK};
use spooderfy::player::{MediaPlayer, MediaPlayerEvent, Stats, VideoInfo};
use spooderfy::settings;
use spooderfy::video::{MediaPlaylist, PlaybackCommand, QueuedVideo, Video, VideoType};
use spooderfy::websocket::WebsocketStatus;

fn queued(title: &str, url: &str) -> QueuedVideo {
    QueuedVideo { title: title.to_string(), url: url.to_string() }
}

fn direct_url(t: &VideoType) -> String {
    match t {
        VideoType::Direct(u) => u.clone(),
        VideoType::Torrent(_) => panic!("expected a direct source"),
    }
}

#[test]
fn urls() {
    assert_eq!(settings::get_emit_url("r1"), "https://gateway.spooderfy.com/emit/r1");
    assert_eq!(settings::get_ws_url("r1"), "wss://gateway.spooderfy.com/ws/r1");
    assert_eq!(settings::get_webhook_api("r1"), "https://spooderfy.com/api/room/r1/webhook");
    assert_eq!(settings::get_stream_api_url("r1"), "https://spooderfy.com/api/room/r1/stream");
    assert_eq!(settings::get_who_am_i_url(), "https://spooderfy.com/api/@me");
    assert_eq!(settings::get_room_url(), "https://spooderfy.com/room");
}

#[test]
fn room_id_from_page_address() {
    assert_eq!(
        settings::room_id_from_url("https://spooderfy.com/room/abc123"),
        Some("abc123".to_string())
    );
    assert_eq!(settings::room_id_from_url("https://spooderfy.com/room/"), Some(String::new()));
    assert_eq!(settings::room_id_from_url("https://spooderfy.com/room"), None);
    assert_eq!(settings::room_id_from_url(""), None);
}

#[test]
fn test_append() {
    let mut playlist = MediaPlaylist::new();
    assert_eq!(playlist.queue_len(), 0);
    assert_eq!(playlist.len(), 0);
    assert!(playlist.append_video(queued("test", "test")).is_none());
    assert_eq!(playlist.queue_len(), 1);
    assert_eq!(playlist.len(), 1);
}

#[test]
fn test_remove_empty() {
    let mut playlist = MediaPlaylist::new();
    playlist.delete_current();
    assert_eq!(playlist.queue_len(), 0);
    assert_eq!(playlist.len(), 0);
}

#[test]
fn test_remove_item() {
    let mut playlist = MediaPlaylist::new();
    playlist.delete_current();
    playlist.append_video(queued("test", "test"));
    assert_eq!(playlist.queue_len(), 1);
    assert_eq!(playlist.len(), 1);
    playlist.delete_current();
    assert_eq!(playlist.queue_len(), 0);
    assert_eq!(playlist.len(), 0);
}

#[test]
fn delete_keeps_queued_video_while_other_tracks_remain() {
    let mut playlist = MediaPlaylist::new();
    playlist.append_video(queued("a", "a.mp4"));
    playlist.append_video(queued("b", "b.mp4"));
    playlist.delete_current();
    assert_eq!(playlist.len(), 1);
    assert_eq!(playlist.queue_len(), 2);
    assert_eq!(direct_url(&playlist.get_video().1), "b.mp4");
}

#[test]
fn test_rotate_next_1() {
    let mut playlist = MediaPlaylist::new();
    playlist.append_video(queued("test", "test"));
    playlist.rotate_next();
    assert_eq!(direct_url(&playlist.get_video().1), "test");
    playlist.rotate_next();
    assert_eq!(direct_url(&playlist.get_video().1), "test");
}

#[test]
fn test_rotate_next_2() {
    let mut playlist = MediaPlaylist::new();
    playlist.append_video(queued("test", "test"));
    playlist.append_video(queued("test 2", "test2"));
    assert_eq!(playlist.queue_len(), 2);
    assert_eq!(playlist.len(), 2);
    playlist.rotate_next();
    let (title, vid) = playlist.get_video();
    assert_eq!(title, "test 2");
    assert_eq!(direct_url(&vid), "test2");
    playlist.rotate_next();
    assert_eq!(direct_url(&playlist.get_video().1), "test");
}

#[test]
fn test_rotate_prev_1() {
    let mut playlist = MediaPlaylist::new();
    playlist.append_video(queued("test", "test"));
    playlist.rotate_prev();
    assert_eq!(direct_url(&playlist.get_video().1), "test");
    playlist.rotate_prev();
    assert_eq!(direct_url(&playlist.get_video().1), "test");
}

#[test]
fn test_rotate_prev_2() {
    let mut playlist = MediaPlaylist::new();
    playlist.append_video(queued("test", "test"));
    playlist.append_video(queued("test 2", "test2"));
    playlist.rotate_prev();
    assert_eq!(direct_url(&playlist.get_video().1), "test2");
    playlist.rotate_prev();
    assert_eq!(direct_url(&playlist.get_video().1), "test");
}

#[test]
fn torrents_are_looked_up_not_played() {
    let mut playlist = MediaPlaylist::new();
    let l = playlist.append_video(queued("show", "magnet:?xt=abc")).unwrap();
    assert_eq!(l.playlist_id, 0);
    assert_eq!(l.url, "magnet:?xt=abc");
    let l = playlist.append_video(queued("film", "https://x/film.torrent")).unwrap();
    assert_eq!(l.playlist_id, 1);
    assert!(playlist.append_video(queued("clip", "https://x/torrent.mp4")).is_none());
    assert_eq!(playlist.len(), 1);
    assert_eq!(playlist.queue_len(), 3);

    playlist.submit_video(0, vec![("ep1".to_string(), 7), ("ep2".to_string(), 8)]);
    assert_eq!(playlist.len(), 3);
    playlist.rotate_next();
    let (title, vid) = playlist.get_video();
    assert_eq!(title, "show - ep1");
    assert!(matches!(vid, VideoType::Torrent(7)));

    playlist.submit_video(9, vec![("x".to_string(), 1)]);
    assert_eq!(playlist.len(), 3);
}

#[test]
fn set_queue_extracts_again() {
    let mut playlist = MediaPlaylist::new();
    playlist.append_video(queued("old", "old.mp4"));
    let lookups = playlist.set_queued_videos(vec![
        queued("a", "a.mp4"),
        queued("t", "magnet:?q"),
        queued("b", "b.mp4"),
    ]);
    assert_eq!(lookups.len(), 1);
    assert_eq!(lookups[0].playlist_id, 1);
    assert_eq!(playlist.len(), 2);
    assert_eq!(direct_url(&playlist.get_video().1), "a.mp4");
    let copy = playlist.get_queued_videos();
    assert_eq!(copy.len(), 3);
    assert_eq!(copy[1].title, "t");
    assert_eq!(copy[2].url, "b.mp4");
}

#[test]
fn chat_input_needs_a_user() {
    let mut input = TextInput::new("room".to_string());
    assert_eq!(input.update(TextInputEvents::KeyPress("h".to_string())).0, true);
    assert!(input.msg.is_empty());
    let (render, sent) = input.update(TextInputEvents::Submit);
    assert!(!render);
    assert!(sent.is_none());
}

#[test]
fn chat_input_sends_joined_keys_on_enter() {
    let mut input = TextInput::new("room".to_string());
    let user = UserInfo { username: "cf8".to_string(), avatar: "av.png".to_string() };
    assert_eq!(input.update(TextInputEvents::WhoAmI(user)).0, false);
    input.update(TextInputEvents::Webhook(Webhook { url: "https://hook".to_string() }));
    for k in ["h", "i", "!"] {
        assert_eq!(input.update(TextInputEvents::KeyPress(k.to_string())).0, false);
    }
    input.update(TextInputEvents::RequestError);
    let (render, sent) = input.update(TextInputEvents::KeyPress("Enter".to_string()));
    assert!(render);
    let sent = sent.unwrap();
    assert_eq!(sent.message.content, "hi!");
    assert_eq!(sent.message.username, "cf8");
    assert_eq!(sent.message.avatar, "av.png");
    assert_eq!(sent.room_id, "room");
    assert_eq!(sent.webhook_url, "https://hook");
    assert!(input.msg.is_empty());
}

#[test]
fn chat_input_key_limit() {
    let mut input = TextInput::new("room".to_string());
    input.update(TextInputEvents::WhoAmI(UserInfo { username: "u".to_string(), avatar: "a".to_string() }));
    for _ in 0..MAX_MESSAGE_KEYS + 5 {
        input.update(TextInputEvents::KeyPress("x".to_string()));
    }
    assert_eq!(input.msg.len(), 1024);
    let (_, sent) = input.submit();
    assert_eq!(sent.unwrap().message.content.len(), 1024);
}

#[test]
fn chat_room_keeps_messages_in_order() {
    let mut room = ChatRoom::new("room".to_string());
    for c in ["one", "two"] {
        room.on_message(Message {
            username: "u".to_string(),
            avatar: "a".to_string(),
            content: c.to_string(),
        });
    }
    assert_eq!(room.messages.len(), 2);
    assert_eq!(room.messages[0].content, "one");
    assert_eq!(room.messages[1].content, "two");
}

#[test]
fn banner_follows_status() {
    let mut b = WsEventDisplay::new();
    assert!(b.connecting && !b.connected && !b.hide);
    b.update(WsEventMessages::Hide);
    assert!(!b.hide);
    b.update(WsEventMessages::Status(WebsocketStatus::Connect));
    assert!(b.connected && !b.connecting && !b.connection_dead);
    assert!(b.update(WsEventMessages::Hide));
    assert!(b.hide);
    b.update(WsEventMessages::Status(WebsocketStatus::Disconnect));
    assert!(b.connecting && !b.hide);
    b.update(WsEventMessages::Status(WebsocketStatus::ClosedPermanently));
    assert!(b.connection_dead && !b.connecting && !b.connected);
    b.update(WsEventMessages::Hide);
    assert!(!b.hide);
}

fn player_with_two_tracks() -> MediaPlayer {
    let mut p = MediaPlayer::new(VideoInfo { owner: "o".to_string(), title: "t".to_string() });
    p.playlist.append_video(queued("a", "a.mp4"));
    p.playlist.append_video(queued("b", "b.mp4"));
    p
}

#[test]
fn local_next_rotates_without_publishing() {
    let mut p = player_with_two_tracks();
    assert!(p.update(MediaPlayerEvent::Next(false)).is_none());
    assert_eq!(direct_url(&p.playlist.get_video().1), "b.mp4");
}

#[test]
fn published_next_only_publishes() {
    let mut p = player_with_two_tracks();
    let env = p.update(MediaPlayerEvent::Next(true)).unwrap();
    assert_eq!(env.opcode, OP_NEXT);
    assert!(env.payload.is_none());
    assert_eq!(direct_url(&p.playlist.get_video().1), "a.mp4");
    // the echo from the room then moves the playlist
    let echo = MediaPlayerEvent::from_remote(env.opcode).unwrap();
    assert!(p.update(echo).is_none());
    assert_eq!(direct_url(&p.playlist.get_video().1), "b.mp4");
}

#[test]
fn previous_and_play_pause() {
    let mut p = player_with_two_tracks();
    assert_eq!(p.update(MediaPlayerEvent::Previous(true)).unwrap().opcode, OP_PREV);
    let env = p.update(MediaPlayerEvent::Play(true)).unwrap();
    assert_eq!(env.opcode, OP_PLAY);
    assert!(p.playing);
    assert!(p.update(MediaPlayerEvent::Pause(false)).is_none());
    assert!(!p.playing);
    assert_eq!(p.update(MediaPlayerEvent::Pause(true)).unwrap().opcode, OP_PAUSE);
    assert!(MediaPlayerEvent::from_remote(OP_SEEK).is_none());
    assert!(matches!(MediaPlayerEvent::from_remote(OP_PREV), Some(MediaPlayerEvent::Previous(false))));
}

#[test]
fn stream_and_stats() {
    let mut p = MediaPlayer::new(VideoInfo { owner: "o".to_string(), title: "t".to_string() });
    assert_eq!(p.stats.members, 1);
    assert_eq!(p.stats.multiplier, "1x");
    p.update(MediaPlayerEvent::StatsUpdate(None));
    assert_eq!(p.stats.members, 1);
    p.update(MediaPlayerEvent::StatsUpdate(Some(Stats { members: 4, multiplier: "2x".to_string() })));
    assert_eq!(p.stats.members, 4);
    p.update(MediaPlayerEvent::LiveStream(None));
    assert!(p.abort && !p.is_connected);
    p.update(MediaPlayerEvent::LiveStream(Some("https://s/live.m3u8".to_string())));
    assert!(p.is_connected);
    assert_eq!(p.stream_url, "https://s/live.m3u8");
}

#[test]
fn video_commands() {
    let mut v = Video::new(true, VideoType::Direct("a.mp4".to_string()));
    assert_eq!(v.volume, 100);
    assert_eq!(v.play(), Some(PlaybackCommand::Play));
    assert_eq!(v.play(), None);
    assert_eq!(
        v.set_video(VideoType::Torrent(3)),
        vec![PlaybackCommand::Pause, PlaybackCommand::Seek(0), PlaybackCommand::Reload]
    );
    assert!(!v.playing);
    assert_eq!(v.take_torrent_render(), Some(3));
    assert_eq!(v.take_torrent_render(), None);
    assert_eq!(v.pause(), None);
    assert_eq!(v.mute(), Some(PlaybackCommand::Mute));
    assert_eq!(v.mute(), None);
    assert_eq!(v.unmute(), Some(PlaybackCommand::Unmute));
    assert_eq!(v.set_vol(40), PlaybackCommand::SetVolume(40));
    assert_eq!(v.volume, 40);
    assert_eq!(v.toggle_fullscreen(), PlaybackCommand::Maximise);
    assert_eq!(v.toggle_fullscreen(), PlaybackCommand::Minimise);
    v.update_pos(4, 5000);
    assert_eq!(v.ready_state, 4);
    assert_eq!(v.pct_pos, 0);
    v.play();
    v.update_pos(4, 5000);
    assert_eq!(v.pct_pos, 5000);
    assert!(v.playing);
    v.update_pos(4, 10000);
    assert!(!v.playing);
}
