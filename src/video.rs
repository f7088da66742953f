//! The playlist: the videos members queued, and the tracks extracted from
//! them, the current track first.

use vstd::prelude::*;
use std::collections::VecDeque;
use vstd::string::{StrSliceExecFns, StringExecFns};

verus! {

/// A video a member queued: a title and where it lives.
pub struct QueuedVideo {
    pub title: String,
    pub url: String,
}

/// A queued video's title and address.
pub ghost struct QueuedView {
    pub title: Seq<char>,
    pub url: Seq<char>,
}

impl View for QueuedVideo {
    type V = QueuedView;

    open spec fn view(&self) -> QueuedView {
        QueuedView { title: self.title@, url: self.url@ }
    }
}

/// Where a track's media comes from.
pub enum VideoType {
    /// A direct video address.
    Direct(String),
    /// A file of a torrent; the number identifies the file object, which
    /// the playback engine holds.
    Torrent(usize),
}

pub ghost enum SourceView {
    Direct(Seq<char>),
    Torrent(usize),
}

impl View for VideoType {
    type V = SourceView;

    open spec fn view(&self) -> SourceView {
        match self {
            VideoType::Direct(u) => SourceView::Direct(u@),
            VideoType::Torrent(f) => SourceView::Torrent(*f),
        }
    }
}

impl VideoType {
    /// A copy of the source.
    pub fn copy(&self) -> (r: VideoType)
        ensures
            r@ == self@,
    {
        match self {
            VideoType::Direct(u) => VideoType::Direct(String::from_str(u.as_str())),
            VideoType::Torrent(f) => VideoType::Torrent(*f),
        }
    }
}

/// A playable track, with the index of the queued video it came from.
pub struct VideoTrack {
    pub video_name: String,
    pub video_type: VideoType,
    pub playlist_id: usize,
}

pub ghost struct TrackView {
    pub name: Seq<char>,
    pub source: SourceView,
    pub playlist_id: usize,
}

impl View for VideoTrack {
    type V = TrackView;

    open spec fn view(&self) -> TrackView {
        TrackView { name: self.video_name@, source: self.video_type@, playlist_id: self.playlist_id }
    }
}

/// A torrent whose files the playback engine must list; they come back
/// through `MediaPlaylist::submit_video` with the same index.
pub struct TorrentLookup {
    pub playlist_id: usize,
    pub url: String,
}

/// A playlist: the queued videos, and the tracks, current first.
pub ghost struct PlaylistView {
    pub queued: Seq<QueuedView>,
    pub tracks: Seq<TrackView>,
}

/// Whether an address names a torrent rather than a video.
pub open spec fn is_torrent_url(u: Seq<char>) -> bool {
    ||| (6 <= u.len() && u.subrange(0, 6) == "magnet"@)
    ||| (8 <= u.len() && u.subrange(u.len() - 8, u.len() as int) == ".torrent"@)
}

/// The tracks a queued video yields at once: itself, unless it is a
/// torrent, whose files come later.
pub open spec fn direct_tracks(v: QueuedView, index: usize) -> Seq<TrackView> {
    if is_torrent_url(v.url) {
        Seq::empty()
    } else {
        seq![TrackView { name: v.title, source: SourceView::Direct(v.url), playlist_id: index }]
    }
}

/// The tracks a whole queue yields at once, in queue order.
pub open spec fn all_direct_tracks(q: Seq<QueuedView>) -> Seq<TrackView>
    decreases q.len(),
{
    if q.len() == 0 {
        Seq::empty()
    } else {
        all_direct_tracks(q.drop_last()) + direct_tracks(q.last(), (q.len() - 1) as usize)
    }
}

/// The torrents of a whole queue, in queue order, as (index, address).
pub open spec fn all_torrents(q: Seq<QueuedView>) -> Seq<(usize, Seq<char>)>
    decreases q.len(),
{
    if q.len() == 0 {
        Seq::empty()
    } else if is_torrent_url(q.last().url) {
        all_torrents(q.drop_last()).push(((q.len() - 1) as usize, q.last().url))
    } else {
        all_torrents(q.drop_last())
    }
}

/// The front track moves to the back.
pub open spec fn rotated(t: Seq<TrackView>) -> Seq<TrackView> {
    if t.len() == 0 {
        t
    } else {
        t.drop_first().push(t[0])
    }
}

/// The current track leaves. Its queued video leaves too where another
/// track still comes from it, or where no track is left.
pub open spec fn after_delete(p: PlaylistView) -> PlaylistView {
    if p.tracks.len() == 0 {
        p
    } else {
        let t = p.tracks[0];
        let rest = p.tracks.drop_first();
        let remove = rest.len() == 0 || exists|j: int|
            0 <= j < rest.len() && #[trigger] rest[j].playlist_id == t.playlist_id;
        PlaylistView {
            queued: if remove && t.playlist_id < p.queued.len() {
                p.queued.remove(t.playlist_id as int)
            } else {
                p.queued
            },
            tracks: rest,
        }
    }
}

fn has_prefix(s: &str, p: &str) -> (r: bool)
    ensures
        r == (p@.len() <= s@.len() && s@.subrange(0, p@.len() as int) == p@),
{
    let n = p.unicode_len();
    if n > s.unicode_len() {
        return false;
    }
    let mut i: usize = 0;
    while i < n
        invariant
            n == p@.len(),
            n <= s@.len(),
            i <= n,
            forall|j: int| 0 <= j < i ==> s@[j] == p@[j],
        decreases n - i,
    {
        if s.get_char(i) != p.get_char(i) {
            assert(s@.subrange(0, n as int)[i as int] != p@[i as int]);
            return false;
        }
        i = i + 1;
    }
    assert(s@.subrange(0, n as int) =~= p@);
    true
}

fn has_suffix(s: &str, p: &str) -> (r: bool)
    ensures
        r == (p@.len() <= s@.len() && s@.subrange(s@.len() - p@.len(), s@.len() as int) == p@),
{
    let n = p.unicode_len();
    let m = s.unicode_len();
    if n > m {
        return false;
    }
    let start = m - n;
    let mut i: usize = 0;
    while i < n
        invariant
            n == p@.len(),
            m == s@.len(),
            start == m - n,
            i <= n,
            forall|j: int| 0 <= j < i ==> s@[start + j] == p@[j],
        decreases n - i,
    {
        if s.get_char(start + i) != p.get_char(i) {
            assert(s@.subrange(start as int, m as int)[i as int] != p@[i as int]);
            return false;
        }
        i = i + 1;
    }
    assert(s@.subrange(start as int, m as int) =~= p@);
    true
}

fn is_torrent(url: &str) -> (r: bool)
    ensures
        r == is_torrent_url(url@),
{
    proof {
        reveal_strlit("magnet");
        reveal_strlit(".torrent");
    }
    has_prefix(url, "magnet") || has_suffix(url, ".torrent")
}

fn copy_queued(v: &QueuedVideo) -> (r: QueuedVideo)
    ensures
        r@ == v@,
{
    QueuedVideo { title: String::from_str(v.title.as_str()), url: String::from_str(v.url.as_str()) }
}

/// The playlist manager.
pub struct MediaPlaylist {
    queued_videos: Vec<QueuedVideo>,
    extracted_videos: VecDeque<VideoTrack>,
}

impl View for MediaPlaylist {
    type V = PlaylistView;

    closed spec fn view(&self) -> PlaylistView {
        PlaylistView {
            queued: self.queued_videos@.map_values(|v: QueuedVideo| v@),
            tracks: self.extracted_videos@.map_values(|t: VideoTrack| t@),
        }
    }
}

impl MediaPlaylist {
    /// An empty playlist.
    pub fn new() -> (r: MediaPlaylist)
        ensures
            r@.queued == Seq::<QueuedView>::empty(),
            r@.tracks == Seq::<TrackView>::empty(),
    {
        let r = MediaPlaylist { queued_videos: Vec::new(), extracted_videos: VecDeque::new() };
        assert(r@.queued =~= Seq::<QueuedView>::empty());
        assert(r@.tracks =~= Seq::<TrackView>::empty());
        r
    }

    /// Moves to the next track: the current one goes to the back.
    pub fn rotate_next(&mut self)
        ensures
            final(self)@ == (PlaylistView { tracks: rotated(old(self)@.tracks), ..old(self)@ }),
    {
        self.rotate();
    }

    /// Moves to the previous track. This rotates the same way as
    /// `rotate_next`: the current track goes to the back.
    pub fn rotate_prev(&mut self)
        ensures
            final(self)@ == (PlaylistView { tracks: rotated(old(self)@.tracks), ..old(self)@ }),
    {
        self.rotate();
    }

    fn rotate(&mut self)
        ensures
            final(self)@ == (PlaylistView { tracks: rotated(old(self)@.tracks), ..old(self)@ }),
    {
        let ghost old_tracks = self.extracted_videos@;
        match self.extracted_videos.pop_front() {
            Some(t) => {
                self.extracted_videos.push_back(t);
                assert(self.extracted_videos@ == old_tracks.drop_first().push(old_tracks[0]));
                assert(self@.tracks =~= rotated(old(self)@.tracks));
            },
            None => {},
        }
    }

    /// Adds the tracks a queued video yields at once: the video itself,
    /// unless it is a torrent, whose lookup is returned instead.
    fn extract_video(&mut self, index: usize, video: &QueuedVideo) -> (r: Option<TorrentLookup>)
        ensures
            final(self)@ == (PlaylistView {
                tracks: old(self)@.tracks + direct_tracks(video@, index),
                ..old(self)@
            }),
            is_torrent_url(video@.url) ==> (r matches Some(l) && l.playlist_id == index && l.url@
                == video@.url),
            !is_torrent_url(video@.url) ==> r is None,
    {
        let url = video.url.as_str();
        if is_torrent(url) {
            assert(self@.tracks =~= old(self)@.tracks + direct_tracks(video@, index));
            Some(TorrentLookup { playlist_id: index, url: String::from_str(url) })
        } else {
            let track = VideoTrack {
                video_name: String::from_str(video.title.as_str()),
                video_type: VideoType::Direct(String::from_str(url)),
                playlist_id: index,
            };
            self.extracted_videos.push_back(track);
            assert(self@.tracks =~= old(self)@.tracks + direct_tracks(video@, index));
            None
        }
    }

    /// Queues a video at the end, and adds the tracks it yields at once.
    /// A torrent's lookup is returned.
    pub fn append_video(&mut self, video: QueuedVideo) -> (r: Option<TorrentLookup>)
        ensures
            final(self)@ == (PlaylistView {
                queued: old(self)@.queued.push(video@),
                tracks: old(self)@.tracks + direct_tracks(video@, old(self)@.queued.len() as usize),
            }),
            is_torrent_url(video@.url) ==> (r matches Some(l) && l.playlist_id == old(self)@.queued.len() && l.url@ == video@.url),
            !is_torrent_url(video@.url) ==> r is None,
    {
        let index = self.queued_videos.len();
        let r = self.extract_video(index, &video);
        self.queued_videos.push(video);
        assert(self@.queued =~= old(self)@.queued.push(video@));
        r
    }

    /// Drops the current track; see `after_delete` for when its queued
    /// video goes too. An empty playlist stays as it is.
    pub fn delete_current(&mut self)
        ensures
            final(self)@ == after_delete(old(self)@),
    {
        let ghost pre = self@;
        let video = match self.extracted_videos.pop_front() {
            Some(v) => v,
            None => return ,
        };
        let ghost rest = pre.tracks.drop_first();
        assert(self@.tracks =~= rest);
        let mut remove_queued = false;
        let mut i: usize = 0;
        let n = self.extracted_videos.len();
        while i < n && !remove_queued
            invariant
                n == self.extracted_videos@.len(),
                self@.tracks == rest,
                self@.queued == pre.queued,
                video@ == pre.tracks[0],
                i <= n,
                remove_queued ==> exists|j: int|
                    0 <= j < rest.len() && #[trigger] rest[j].playlist_id == video.playlist_id,
                !remove_queued ==> forall|j: int|
                    0 <= j < i ==> #[trigger] rest[j].playlist_id != video.playlist_id,
            decreases n - i,
        {
            if self.extracted_videos[i].playlist_id == video.playlist_id {
                assert(rest[i as int].playlist_id == video.playlist_id);
                remove_queued = true;
            }
            i = i + 1;
        }
        let remove = remove_queued || self.extracted_videos.len() == 0;
        assert(remove == (rest.len() == 0 || exists|j: int|
            0 <= j < rest.len() && #[trigger] rest[j].playlist_id == pre.tracks[0].playlist_id));
        if remove && video.playlist_id < self.queued_videos.len() {
            let ghost q = self.queued_videos@;
            self.queued_videos.remove(video.playlist_id);
            assert(self.queued_videos@ == q.remove(video.playlist_id as int));
            assert(self@.queued =~= pre.queued.remove(video.playlist_id as int));
        }
        assert(self@ == after_delete(pre));
    }

    /// The current track's title and source.
    pub fn get_video(&self) -> (r: (String, VideoType))
        requires
            self@.tracks.len() > 0,
        ensures
            r.0@ == self@.tracks[0].name,
            r.1@ == self@.tracks[0].source,
    {
        let selected = &self.extracted_videos[0];
        (String::from_str(selected.video_name.as_str()), selected.video_type.copy())
    }

    /// A copy of the queued videos, for syncing with other members.
    pub fn get_queued_videos(&self) -> (r: Vec<QueuedVideo>)
        ensures
            r@.map_values(|v: QueuedVideo| v@) == self@.queued,
    {
        let mut r: Vec<QueuedVideo> = Vec::new();
        let mut i: usize = 0;
        while i < self.queued_videos.len()
            invariant
                i <= self.queued_videos@.len(),
                r@.len() == i,
                r@.map_values(|v: QueuedVideo| v@) =~= self@.queued.subrange(0, i as int),
            decreases self.queued_videos.len() - i,
        {
            let ghost before = r@;
            r.push(copy_queued(&self.queued_videos[i]));
            assert(r@ == before.push(r@[i as int]));
            assert(self@.queued.subrange(0, i + 1) =~= self@.queued.subrange(0, i as int).push(
                self@.queued[i as int],
            ));
            i = i + 1;
        }
        assert(self@.queued.subrange(0, i as int) =~= self@.queued);
        r
    }

    /// Replaces the queue and extracts the tracks anew from it; the
    /// torrents' lookups are returned in queue order.
    pub fn set_queued_videos(&mut self, videos: Vec<QueuedVideo>) -> (r: Vec<TorrentLookup>)
        ensures
            final(self)@.queued == videos@.map_values(|v: QueuedVideo| v@),
            final(self)@.tracks == all_direct_tracks(final(self)@.queued),
            r@.map_values(|l: TorrentLookup| (l.playlist_id, l.url@)) == all_torrents(
                final(self)@.queued,
            ),
    {
        self.queued_videos = videos;
        self.extract_videos()
    }

    fn extract_videos(&mut self) -> (r: Vec<TorrentLookup>)
        ensures
            final(self)@.queued == old(self)@.queued,
            final(self)@.tracks == all_direct_tracks(final(self)@.queued),
            r@.map_values(|l: TorrentLookup| (l.playlist_id, l.url@)) == all_torrents(
                final(self)@.queued,
            ),
    {
        self.extracted_videos.clear();
        let mut lookups: Vec<TorrentLookup> = Vec::new();
        let ghost q = self@.queued;
        let mut i: usize = 0;
        let n = self.queued_videos.len();
        assert(self@.tracks =~= all_direct_tracks(q.subrange(0, 0)));
        while i < n
            invariant
                n == self.queued_videos@.len(),
                q == self@.queued,
                i <= n,
                self@.tracks == all_direct_tracks(q.subrange(0, i as int)),
                lookups@.map_values(|l: TorrentLookup| (l.playlist_id, l.url@)) == all_torrents(
                    q.subrange(0, i as int),
                ),
            decreases n - i,
        {
            let ghost prefix = q.subrange(0, i + 1);
            assert(prefix.drop_last() =~= q.subrange(0, i as int));
            assert(prefix.last() == self.queued_videos@[i as int]@);
            let video = copy_queued(&self.queued_videos[i]);
            match self.extract_video(i, &video) {
                Some(l) => {
                    let ghost before = lookups@.map_values(|l: TorrentLookup| (l.playlist_id, l.url@));
                    lookups.push(l);
                    assert(lookups@.map_values(|l: TorrentLookup| (l.playlist_id, l.url@)) =~= before.push(
                        (i, video.url@),
                    ));
                },
                None => {},
            }
            i = i + 1;
        }
        assert(q.subrange(0, n as int) =~= q);
        lookups
    }

    /// The files a torrent turned out to hold, as (file title, file
    /// object): each becomes a track named after the queued video and the
    /// file. Where `index` names no queued video nothing changes.
    pub fn submit_video(&mut self, index: usize, videos: Vec<(String, usize)>)
        ensures
            index >= old(self)@.queued.len() ==> final(self)@ == old(self)@,
            index < old(self)@.queued.len() ==> final(self)@ == (PlaylistView {
                tracks: old(self)@.tracks + Seq::new(
                    videos@.len(),
                    |i: int|
                        TrackView {
                            name: old(self)@.queued[index as int].title + " - "@ + videos@[i].0@,
                            source: SourceView::Torrent(videos@[i].1),
                            playlist_id: index,
                        },
                ),
                ..old(self)@
            }),
    {
        if index >= self.queued_videos.len() {
            return ;
        }
        let ghost pre = self@;
        let parent_name = &self.queued_videos[index].title;
        let ghost parent = parent_name@;
        assert(parent == pre.queued[index as int].title);
        let mut i: usize = 0;
        while i < videos.len()
            invariant
                i <= videos@.len(),
                self@.queued == pre.queued,
                self.queued_videos@ == old(self).queued_videos@,
                parent == pre.queued[index as int].title,
                index < self.queued_videos@.len(),
                parent == self.queued_videos@[index as int].title@,
                self@.tracks =~= pre.tracks + Seq::new(
                    i as nat,
                    |k: int|
                        TrackView {
                            name: parent + " - "@ + videos@[k].0@,
                            source: SourceView::Torrent(videos@[k].1),
                            playlist_id: index,
                        },
                ),
            decreases videos.len() - i,
        {
            let mut title = String::from_str(self.queued_videos[index].title.as_str());
            title.append(" - ");
            title.append(videos[i].0.as_str());
            let track = VideoTrack {
                video_name: title,
                video_type: VideoType::Torrent(videos[i].1),
                playlist_id: index,
            };
            let ghost before = self.extracted_videos@;
            self.extracted_videos.push_back(track);
            assert(self.extracted_videos@ == before.push(track));
            assert(self@.tracks =~= before.map_values(|t: VideoTrack| t@).push(track@));
            i = i + 1;
        }
    }

    /// How many tracks there are.
    pub fn len(&self) -> (r: usize)
        ensures
            r == self@.tracks.len(),
    {
        self.extracted_videos.len()
    }

    /// How many videos are queued.
    pub fn queue_len(&self) -> (r: usize)
        ensures
            r == self@.queued.len(),
    {
        self.queued_videos.len()
    }
}

/// A command for the playback engine, which owns the video element.
#[derive(Clone, Copy, Debug, PartialEq, Eq, Structural)]
pub enum PlaybackCommand {
    Play,
    Pause,
    Mute,
    Unmute,
    /// The volume, from 0 to 100.
    SetVolume(u32),
    /// A position, in seconds.
    Seek(u32),
    /// Load the current source again.
    Reload,
    Maximise,
    Minimise,
}

/// Progress, in hundredths of a percent, at which a video has ended.
pub const PCT_DONE: u32 = 10000;

/// The state of the video element, as far as the page tracks it.
pub struct Video {
    /// The selected source.
    pub video: VideoType,
    /// Whether the element shows its own controls.
    pub controls: bool,
    pub playing: bool,
    pub muted: bool,
    /// The volume, from 0 to 100.
    pub volume: u32,
    /// How far playback is, in hundredths of a percent.
    pub pct_pos: u32,
    pub is_fullscreen: bool,
    /// The torrent source was handed to the element already.
    pub torrent_rendered: bool,
    /// The element's ready state, as last read.
    pub ready_state: u32,
}

impl Video {
    /// A stopped, unmuted video at full volume.
    pub fn new(controls: bool, video: VideoType) -> (r: Video)
        ensures
            r.video == video,
            r.controls == controls,
            !r.playing && !r.muted && !r.is_fullscreen && !r.torrent_rendered,
            r.volume == 100,
            r.pct_pos == 0,
            r.ready_state == 1,
    {
        Video {
            video,
            controls,
            playing: false,
            muted: false,
            volume: 100,
            pct_pos: 0,
            is_fullscreen: false,
            torrent_rendered: false,
            ready_state: 1,
        }
    }

    /// Starts playback unless it is playing already.
    pub fn play(&mut self) -> (r: Option<PlaybackCommand>)
        ensures
            final(self).playing,
            r == if old(self).playing {
                None
            } else {
                Some(PlaybackCommand::Play)
            },
            *final(self) == (Video { playing: true, ..*old(self) }),
    {
        if !self.playing {
            self.playing = true;
            return Some(PlaybackCommand::Play);
        }
        None
    }

    /// Pauses playback if it is playing.
    pub fn pause(&mut self) -> (r: Option<PlaybackCommand>)
        ensures
            r == if old(self).playing {
                Some(PlaybackCommand::Pause)
            } else {
                None
            },
            *final(self) == (Video { playing: false, ..*old(self) }),
    {
        if self.playing {
            self.playing = false;
            return Some(PlaybackCommand::Pause);
        }
        None
    }

    /// Switches to another source: playback pauses, goes back to the
    /// start, and the element reloads.
    pub fn set_video(&mut self, video: VideoType) -> (r: Vec<PlaybackCommand>)
        ensures
            *final(self) == (Video {
                video,
                playing: false,
                torrent_rendered: false,
                ..*old(self)
            }),
            r@ == if old(self).playing {
                seq![PlaybackCommand::Pause, PlaybackCommand::Seek(0), PlaybackCommand::Reload]
            } else {
                seq![PlaybackCommand::Seek(0), PlaybackCommand::Reload]
            },
    {
        self.torrent_rendered = false;
        self.video = video;
        let mut r: Vec<PlaybackCommand> = Vec::new();
        if let Some(c) = self.pause() {
            r.push(c);
        }
        r.push(self.seek(0));
        r.push(PlaybackCommand::Reload);
        r
    }

    /// Mutes the video unless it is muted already.
    pub fn mute(&mut self) -> (r: Option<PlaybackCommand>)
        ensures
            r == if old(self).muted {
                None
            } else {
                Some(PlaybackCommand::Mute)
            },
            *final(self) == (Video { muted: true, ..*old(self) }),
    {
        if !self.muted {
            self.muted = true;
            return Some(PlaybackCommand::Mute);
        }
        None
    }

    /// Unmutes the video if it is muted.
    pub fn unmute(&mut self) -> (r: Option<PlaybackCommand>)
        ensures
            r == if old(self).muted {
                Some(PlaybackCommand::Unmute)
            } else {
                None
            },
            *final(self) == (Video { muted: false, ..*old(self) }),
    {
        if self.muted {
            self.muted = false;
            return Some(PlaybackCommand::Unmute);
        }
        None
    }

    /// Sets the volume, from 0 to 100.
    pub fn set_vol(&mut self, vol: u32) -> (r: PlaybackCommand)
        ensures
            r == PlaybackCommand::SetVolume(vol),
            *final(self) == (Video { volume: vol, ..*old(self) }),
    {
        self.volume = vol;
        PlaybackCommand::SetVolume(vol)
    }

    /// Seeks to a position in seconds.
    pub fn seek(&self, pos: u32) -> (r: PlaybackCommand)
        ensures
            r == PlaybackCommand::Seek(pos),
    {
        PlaybackCommand::Seek(pos)
    }

    /// Leaves full screen if in it, enters it otherwise.
    pub fn toggle_fullscreen(&mut self) -> (r: PlaybackCommand)
        ensures
            r == if old(self).is_fullscreen {
                PlaybackCommand::Minimise
            } else {
                PlaybackCommand::Maximise
            },
            *final(self) == (Video { is_fullscreen: !old(self).is_fullscreen, ..*old(self) }),
    {
        if self.is_fullscreen {
            self.is_fullscreen = false;
            PlaybackCommand::Minimise
        } else {
            self.is_fullscreen = true;
            PlaybackCommand::Maximise
        }
    }

    /// A tick: records the element's ready state and, while playing, its
    /// progress; playback stops once the progress reaches the end.
    pub fn update_pos(&mut self, ready_state: u32, pct_done: u32)
        ensures
            !old(self).playing ==> *final(self) == (Video { ready_state, ..*old(self) }),
            old(self).playing ==> *final(self) == (Video {
                ready_state,
                pct_pos: pct_done,
                playing: pct_done < PCT_DONE,
                ..*old(self)
            }),
    {
        self.ready_state = ready_state;
        if !self.playing {
            return ;
        }
        self.pct_pos = pct_done;
        if self.pct_pos >= PCT_DONE {
            self.playing = false;
        }
    }

    /// The torrent file to hand to the element, once per source.
    pub fn take_torrent_render(&mut self) -> (r: Option<usize>)
        ensures
            match old(self).video {
                VideoType::Torrent(f) if !old(self).torrent_rendered => r == Some(f) && *final(self)
                    == (Video { torrent_rendered: true, ..*old(self) }),
                _ => r is None && *final(self) == *old(self),
            },
    {
        if let VideoType::Torrent(f) = &self.video {
            if !self.torrent_rendered {
                self.torrent_rendered = true;
                return Some(*f);
            }
        }
        None
    }
}

} // verus!
