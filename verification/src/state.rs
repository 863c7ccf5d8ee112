use vstd::prelude::*;
use crate::model::{SharedState, TrackStatus, PlaylistTrack, TrackView, track_views};
use crate::player::PlayerState;
use crate::reply::{string_views, pair_views, opt_view};
use crate::text::{append_chars, append_str, chars_of, decimal, decimal_chars, signed_decimal, signed_decimal_chars, string_of, text_of, same_chars};

verus! {

/// Everything in the shared state, in spec terms.
pub ghost struct SharedFull {
    pub track_name: Seq<char>,
    pub track_artist: Seq<char>,
    pub track_album: Seq<char>,
    pub track_state: PlayerState,
    pub track_loved: Option<bool>,
    pub playlists: Seq<Seq<char>>,
    pub playlist_tracks: Seq<TrackView>,
    pub up_next_name: Seq<char>,
    pub up_next_artist: Seq<char>,
    pub queue: Seq<(Seq<char>, Seq<char>)>,
    pub shuffle: Option<bool>,
    pub repeat_mode: Option<Seq<char>>,
    pub volume: int,
    pub current_playlist: Seq<char>,
    pub pre_mute_vol: int,
    pub status: Seq<char>,
    pub dirty: bool,
    pub artists: Seq<Seq<char>>,
    pub artist_tracks: Seq<TrackView>,
    pub recent_tracks: Seq<(Seq<char>, Seq<char>)>,
    pub last_track_name: Seq<char>,
}

impl SharedState {
    /// Everything in this state, in spec terms.
    pub open spec fn full(&self) -> SharedFull {
        SharedFull {
            track_name: self.track.name@,
            track_artist: self.track.artist@,
            track_album: self.track.album@,
            track_state: self.track.state,
            track_loved: self.track.loved,
            playlists: string_views(self.playlists@),
            playlist_tracks: track_views(self.playlist_tracks@),
            up_next_name: self.up_next_name@,
            up_next_artist: self.up_next_artist@,
            queue: pair_views(self.queue@),
            shuffle: self.shuffle,
            repeat_mode: opt_view(self.repeat_mode),
            volume: self.volume as int,
            current_playlist: self.current_playlist@,
            pre_mute_vol: self.pre_mute_vol as int,
            status: self.status@,
            dirty: self.dirty,
            artists: string_views(self.artists@),
            artist_tracks: track_views(self.artist_tracks@),
            recent_tracks: pair_views(self.recent_tracks@),
            last_track_name: self.last_track_name@,
        }
    }

    /// The state before anything was loaded: no track (stopped), empty
    /// lists, unknown shuffle, repeat and volume (-1), a remembered volume
    /// of 50 for unmuting, and the status "Loading...".
    pub fn new() -> (r: SharedState)
        ensures
            r.full() == (SharedFull {
                track_name: Seq::<char>::empty(),
                track_artist: Seq::<char>::empty(),
                track_album: Seq::<char>::empty(),
                track_state: PlayerState::Stopped,
                track_loved: None,
                playlists: Seq::<Seq<char>>::empty(),
                playlist_tracks: Seq::<TrackView>::empty(),
                up_next_name: Seq::<char>::empty(),
                up_next_artist: Seq::<char>::empty(),
                queue: Seq::<(Seq<char>, Seq<char>)>::empty(),
                shuffle: None,
                repeat_mode: None,
                volume: -1,
                current_playlist: Seq::<char>::empty(),
                pre_mute_vol: 50,
                status: "Loading..."@,
                dirty: false,
                artists: Seq::<Seq<char>>::empty(),
                artist_tracks: Seq::<TrackView>::empty(),
                recent_tracks: Seq::<(Seq<char>, Seq<char>)>::empty(),
                last_track_name: Seq::<char>::empty(),
            }),
    {
        let r = SharedState {
            track: TrackStatus {
                name: String::new(),
                artist: String::new(),
                album: String::new(),
                state: PlayerState::Stopped,
                loved: None,
            },
            playlists: Vec::new(),
            playlist_tracks: Vec::new(),
            up_next_name: String::new(),
            up_next_artist: String::new(),
            queue: Vec::new(),
            shuffle: None,
            repeat_mode: None,
            volume: -1,
            current_playlist: String::new(),
            pre_mute_vol: 50,
            status: text_of("Loading..."),
            dirty: false,
            artists: Vec::new(),
            artist_tracks: Vec::new(),
            recent_tracks: Vec::new(),
            last_track_name: String::new(),
        };
        assert(r.full().playlists =~= Seq::<Seq<char>>::empty());
        assert(r.full().playlist_tracks =~= Seq::<TrackView>::empty());
        assert(r.full().queue =~= Seq::<(Seq<char>, Seq<char>)>::empty());
        assert(r.full().artists =~= Seq::<Seq<char>>::empty());
        assert(r.full().artist_tracks =~= Seq::<TrackView>::empty());
        assert(r.full().recent_tracks =~= Seq::<(Seq<char>, Seq<char>)>::empty());
        r
    }
}

// ── Status lines ──────────────────────────────────────────────────────

/// "{name} — {n} tracks", the status after loading a track list.
pub open spec fn msg_tracks_loaded(name: Seq<char>, n: nat) -> Seq<char> {
    name + " — "@ + decimal(n) + " tracks"@
}

/// "{n} artists loaded".
pub open spec fn msg_artists_loaded(n: nat) -> Seq<char> {
    decimal(n) + " artists loaded"@
}

/// "Refreshed — {n} playlists".
pub open spec fn msg_refreshed(n: nat) -> Seq<char> {
    "Refreshed — "@ + decimal(n) + " playlists"@
}

/// "Loaded {n} playlists".
pub open spec fn msg_loaded(n: nat) -> Seq<char> {
    "Loaded "@ + decimal(n) + " playlists"@
}

/// The status after flipping the loved flag.
pub open spec fn msg_love(loved: Option<bool>) -> Seq<char> {
    match loved {
        Some(true) => "♥ Loved"@,
        Some(false) => "♡ Unloved"@,
        None => "Love toggled"@,
    }
}

/// The status after flipping shuffle.
pub open spec fn msg_shuffle(s: Option<bool>) -> Seq<char> {
    match s {
        Some(true) => "Shuffle on"@,
        Some(false) => "Shuffle off"@,
        None => "Shuffle toggled"@,
    }
}

/// "Volume: {v}%".
pub open spec fn msg_volume(v: int) -> Seq<char> {
    "Volume: "@ + signed_decimal(v) + "%"@
}

/// "Muted", or "Unmuted ({v}%)".
pub open spec fn msg_mute(v: int) -> Seq<char> {
    if v == 0 {
        "Muted"@
    } else {
        "Unmuted ("@ + signed_decimal(v) + "%)"@
    }
}

/// "Repeat: {mode}".
pub open spec fn msg_repeat(m: Seq<char>) -> Seq<char> {
    "Repeat: "@ + m
}

/// The status after loading a track list.
fn tracks_loaded_message(name: &String, n: usize) -> (r: String)
    ensures
        r@ == msg_tracks_loaded(name@, n as nat),
{
    let mut v = chars_of(name.as_str());
    append_str(&mut v, " — ");
    let d = decimal_chars(n as u64);
    append_chars(&mut v, d.as_slice());
    append_str(&mut v, " tracks");
    string_of(v.as_slice())
}

/// A count between two fixed texts.
fn count_message(before: &str, n: usize, after: &str) -> (r: String)
    ensures
        r@ == before@ + decimal(n as nat) + after@,
{
    let mut v = chars_of(before);
    let d = decimal_chars(n as u64);
    append_chars(&mut v, d.as_slice());
    append_str(&mut v, after);
    string_of(v.as_slice())
}

/// A signed number between two fixed texts.
fn number_message(before: &str, n: i32, after: &str) -> (r: String)
    ensures
        r@ == before@ + signed_decimal(n as int) + after@,
{
    let mut v = chars_of(before);
    let d = signed_decimal_chars(n as i64);
    append_chars(&mut v, d.as_slice());
    append_str(&mut v, after);
    string_of(v.as_slice())
}

// ── Volume ────────────────────────────────────────────────────────────

/// The volume after turning `v` up: 5 more, at most 100.
pub open spec fn volume_raised(v: int) -> int {
    if v + 5 < 100 {
        v + 5
    } else {
        100
    }
}

/// The volume after turning `v` down: 5 less, at least 0.
pub open spec fn volume_lowered(v: int) -> int {
    if v - 5 > 0 {
        v - 5
    } else {
        0
    }
}

/// The volume and the remembered volume after the mute key: a volume
/// above 0 is remembered and muted, else the remembered volume comes back.
pub open spec fn mute_step(volume: int, pre: int) -> (int, int) {
    if volume > 0 {
        (0, volume)
    } else {
        (pre, pre)
    }
}

// ── Repeat modes ──────────────────────────────────────────────────────

/// The repeat mode after `m` (unknown counts as off): off, all, one, off.
pub open spec fn next_repeat(m: Option<Seq<char>>) -> Seq<char> {
    let cur = match m {
        Some(x) => x,
        None => "off"@,
    };
    if cur == "off"@ {
        "all"@
    } else if cur == "all"@ {
        "one"@
    } else {
        "off"@
    }
}

} // verus!

verus! {

impl SharedState {
    /// Takes in the tracks loaded for playlist `name`: they replace the
    /// track list, the status tells how many there are, and the lists are
    /// marked for refiltering.
    pub fn apply_playlist_tracks(&mut self, name: &String, tracks: Vec<PlaylistTrack>)
        ensures
            final(self).full() == (SharedFull {
                status: msg_tracks_loaded(name@, tracks@.len()),
                playlist_tracks: track_views(tracks@),
                dirty: true,
                ..old(self).full()
            }),
    {
        self.status = tracks_loaded_message(name, tracks.len());
        self.playlist_tracks = tracks;
        self.dirty = true;
    }

    /// Takes in the tracks loaded for artist `name`, as
    /// `apply_playlist_tracks` does for a playlist.
    pub fn apply_artist_tracks(&mut self, name: &String, tracks: Vec<PlaylistTrack>)
        ensures
            final(self).full() == (SharedFull {
                status: msg_tracks_loaded(name@, tracks@.len()),
                artist_tracks: track_views(tracks@),
                dirty: true,
                ..old(self).full()
            }),
    {
        self.status = tracks_loaded_message(name, tracks.len());
        self.artist_tracks = tracks;
        self.dirty = true;
    }

    /// Takes in the loaded artists.
    pub fn apply_artists(&mut self, artists: Vec<String>)
        ensures
            final(self).full() == (SharedFull {
                status: msg_artists_loaded(artists@.len()),
                artists: string_views(artists@),
                dirty: true,
                ..old(self).full()
            }),
    {
        self.status = count_message("", artists.len(), " artists loaded");
        proof {
            assert(""@ =~= Seq::<char>::empty()) by {
                reveal_strlit("");
            }
            assert(""@ + decimal(artists@.len()) + " artists loaded"@ =~= msg_artists_loaded(artists@.len()));
        }
        self.artists = artists;
        self.dirty = true;
    }

    /// Takes in reloaded playlists, telling how many there are.
    pub fn apply_playlists_refresh(&mut self, playlists: Vec<String>)
        ensures
            final(self).full() == (SharedFull {
                status: msg_refreshed(playlists@.len()),
                playlists: string_views(playlists@),
                dirty: true,
                ..old(self).full()
            }),
    {
        self.status = count_message("Refreshed — ", playlists.len(), " playlists");
        self.playlists = playlists;
        self.dirty = true;
    }

    /// Takes in the playlists the periodic refresh loaded, marking the
    /// lists for refiltering.
    pub fn apply_polled_playlists(&mut self, playlists: Vec<String>)
        ensures
            final(self).full() == (SharedFull {
                playlists: string_views(playlists@),
                dirty: true,
                ..old(self).full()
            }),
    {
        self.playlists = playlists;
        self.dirty = true;
    }

    /// Takes in the loved flag read back after flipping it.
    pub fn apply_love(&mut self, loved: Option<bool>)
        ensures
            final(self).full() == (SharedFull { track_loved: loved, status: msg_love(loved), ..old(self).full() }),
    {
        self.track.loved = loved;
        self.status = match loved {
            Some(true) => text_of("♥ Loved"),
            Some(false) => text_of("♡ Unloved"),
            None => text_of("Love toggled"),
        };
    }

    /// Takes in the shuffle setting read back after flipping it.
    pub fn apply_shuffle(&mut self, shuffle: Option<bool>)
        ensures
            final(self).full() == (SharedFull { shuffle: shuffle, status: msg_shuffle(shuffle), ..old(self).full() }),
    {
        self.shuffle = shuffle;
        self.status = match shuffle {
            Some(true) => text_of("Shuffle on"),
            Some(false) => text_of("Shuffle off"),
            None => text_of("Shuffle toggled"),
        };
    }

    /// The repeat mode to switch to next (see `next_repeat`).
    pub fn next_repeat_mode(&self) -> (r: &'static str)
        ensures
            r@ == next_repeat(opt_view(self.repeat_mode)),
    {
        let cur: Vec<char> = match &self.repeat_mode {
            Some(m) => chars_of(m.as_str()),
            None => chars_of("off"),
        };
        if crate::text::is_text(cur.as_slice(), "off") {
            "all"
        } else if crate::text::is_text(cur.as_slice(), "all") {
            "one"
        } else {
            "off"
        }
    }

    /// Records a new repeat mode.
    pub fn apply_repeat(&mut self, mode: &str)
        ensures
            final(self).full() == (SharedFull {
                repeat_mode: Some(mode@),
                status: msg_repeat(mode@),
                ..old(self).full()
            }),
    {
        self.repeat_mode = Some(text_of(mode));
        self.status = crate::text::concat2("Repeat: ", mode);
    }

    /// Whether the volume is still unknown and must be read first.
    pub fn volume_unknown(&self) -> (r: bool)
        ensures
            r == (self.volume < 0),
    {
        self.volume < 0
    }

    /// Records a volume that was read.
    pub fn set_volume(&mut self, v: i32)
        ensures
            final(self).full() == (SharedFull { volume: v as int, ..old(self).full() }),
    {
        self.volume = v;
    }

    /// Turns the volume up by 5, to at most 100, and says so; gives the new
    /// volume to set.
    pub fn volume_up(&mut self) -> (r: i32)
        requires
            old(self).volume <= i32::MAX - 5,
        ensures
            r == volume_raised(old(self).volume as int),
            final(self).full() == (SharedFull { volume: r as int, status: msg_volume(r as int), ..old(self).full() }),
    {
        let v = self.volume + 5;
        let new = if v < 100 { v } else { 100 };
        self.volume = new;
        self.status = number_message("Volume: ", new, "%");
        new
    }

    /// Turns the volume down by 5, to at least 0, and says so; gives the new
    /// volume to set.
    pub fn volume_down(&mut self) -> (r: i32)
        requires
            old(self).volume >= i32::MIN + 5,
        ensures
            r == volume_lowered(old(self).volume as int),
            final(self).full() == (SharedFull { volume: r as int, status: msg_volume(r as int), ..old(self).full() }),
    {
        let v = self.volume - 5;
        let new = if v > 0 { v } else { 0 };
        self.volume = new;
        self.status = number_message("Volume: ", new, "%");
        new
    }

    /// Mutes, remembering the volume, when the volume is above 0; else
    /// restores the remembered volume. Says which, and gives the new volume
    /// to set.
    pub fn toggle_mute(&mut self) -> (r: i32)
        ensures
            r == mute_step(old(self).volume as int, old(self).pre_mute_vol as int).0,
            final(self).full() == (SharedFull {
                volume: r as int,
                pre_mute_vol: mute_step(old(self).volume as int, old(self).pre_mute_vol as int).1,
                status: msg_mute(r as int),
                ..old(self).full()
            }),
    {
        let new = if self.volume > 0 {
            self.pre_mute_vol = self.volume;
            0
        } else {
            self.pre_mute_vol
        };
        self.volume = new;
        if new == 0 {
            self.status = text_of("Muted");
        } else {
            self.status = number_message("Unmuted (", new, "%)");
        }
        new
    }

    /// Puts a message on the status line.
    pub fn set_status(&mut self, msg: String)
        ensures
            final(self).full() == (SharedFull { status: msg@, ..old(self).full() }),
    {
        self.status = msg;
    }

    /// Marks the lists as refiltered; gives whether they needed it.
    pub fn take_dirty(&mut self) -> (r: bool)
        ensures
            r == old(self).dirty,
            final(self).full() == (SharedFull { dirty: false, ..old(self).full() }),
    {
        let d = self.dirty;
        self.dirty = false;
        d
    }

    /// Puts "Ready" back on the status line once a message has been shown
    /// long enough.
    pub fn expire_status(&mut self)
        ensures
            final(self).full() == (SharedFull { status: "Ready"@, ..old(self).full() }),
    {
        let cur = chars_of(self.status.as_str());
        if !crate::text::is_text(cur.as_slice(), "Ready") {
            self.status = text_of("Ready");
        }
    }
}

} // verus!

verus! {

/// At most this many recently played tracks are kept.
pub const RECENT_LIMIT: usize = 50;

/// The recently played list after the current track changed from
/// `last_name` (by `last_artist`) to `new_name`: when both names are
/// known and differ, the previous track goes to the front, unless it is
/// already there, and the list is cut to its first fifty entries.
pub open spec fn recent_after(
    recent: Seq<(Seq<char>, Seq<char>)>,
    last_name: Seq<char>,
    last_artist: Seq<char>,
    new_name: Seq<char>,
) -> Seq<(Seq<char>, Seq<char>)> {
    if new_name.len() > 0 && last_name.len() > 0 && new_name != last_name {
        if recent.len() > 0 && recent[0].0 == last_name {
            recent
        } else {
            let r = seq![(last_name, last_artist)] + recent;
            if r.len() > 50 {
                r.take(50)
            } else {
                r
            }
        }
    } else {
        recent
    }
}

impl SharedState {
    /// Puts the previous track at the front of the recently played list
    /// when the current track's name changes to `new_name` (see
    /// `recent_after`).
    pub fn note_track_change(&mut self, new_name: &String)
        ensures
            final(self).full() == (SharedFull {
                recent_tracks: recent_after(
                    old(self).full().recent_tracks,
                    old(self).last_track_name@,
                    old(self).track.artist@,
                    new_name@,
                ),
                ..old(self).full()
            }),
    {
        let new_v = chars_of(new_name.as_str());
        let last_v = chars_of(self.last_track_name.as_str());
        if new_v.len() > 0 && last_v.len() > 0 && !same_chars(new_v.as_slice(), last_v.as_slice()) {
            let already = if self.recent_tracks.len() > 0 {
                let first = chars_of(self.recent_tracks[0].0.as_str());
                assert(pair_views(self.recent_tracks@)[0].0 == self.recent_tracks@[0].0@);
                same_chars(first.as_slice(), last_v.as_slice())
            } else {
                false
            };
            if !already {
                let ghost before = pair_views(self.recent_tracks@);
                let entry = (self.last_track_name.clone(), self.track.artist.clone());
                self.recent_tracks.insert(0, entry);
                assert(pair_views(self.recent_tracks@) =~= seq![(entry.0@, entry.1@)] + before);
                if self.recent_tracks.len() > RECENT_LIMIT {
                    let ghost longer = pair_views(self.recent_tracks@);
                    self.recent_tracks.truncate(RECENT_LIMIT);
                    assert(pair_views(self.recent_tracks@) =~= longer.take(50));
                }
            }
        }
    }

    /// Takes in what the periodic refresh read: the recently played list
    /// is updated for a change of track (see `recent_after`), then the
    /// current track, volume, shuffle, repeat mode, current playlist, next
    /// track and queue are replaced.
    pub fn apply_poll(
        &mut self,
        track: TrackStatus,
        volume: i32,
        shuffle: Option<bool>,
        repeat_mode: Option<String>,
        current_playlist: String,
        up_next: (String, String),
        queue: Vec<(String, String)>,
    )
        ensures
            final(self).full() == (SharedFull {
                recent_tracks: recent_after(
                    old(self).full().recent_tracks,
                    old(self).last_track_name@,
                    old(self).track.artist@,
                    track.name@,
                ),
                last_track_name: track.name@,
                track_name: track.name@,
                track_artist: track.artist@,
                track_album: track.album@,
                track_state: track.state,
                track_loved: track.loved,
                volume: volume as int,
                shuffle: shuffle,
                repeat_mode: opt_view(repeat_mode),
                current_playlist: current_playlist@,
                up_next_name: up_next.0@,
                up_next_artist: up_next.1@,
                queue: pair_views(queue@),
                ..old(self).full()
            }),
    {
        self.note_track_change(&track.name);
        self.last_track_name = track.name.clone();
        self.track = track;
        self.volume = volume;
        self.shuffle = shuffle;
        self.repeat_mode = repeat_mode;
        self.current_playlist = current_playlist;
        self.up_next_name = up_next.0;
        self.up_next_artist = up_next.1;
        self.queue = queue;
    }

    /// Takes in the first reading at start-up: playlists, current track,
    /// volume, shuffle, repeat mode, current playlist, next track and
    /// queue, with a status telling how many playlists were loaded.
    pub fn apply_initial(
        &mut self,
        playlists: Vec<String>,
        track: TrackStatus,
        volume: i32,
        shuffle: Option<bool>,
        repeat_mode: Option<String>,
        current_playlist: String,
        up_next: (String, String),
        queue: Vec<(String, String)>,
    )
        ensures
            final(self).full() == (SharedFull {
                playlists: string_views(playlists@),
                last_track_name: track.name@,
                track_name: track.name@,
                track_artist: track.artist@,
                track_album: track.album@,
                track_state: track.state,
                track_loved: track.loved,
                volume: volume as int,
                shuffle: shuffle,
                repeat_mode: opt_view(repeat_mode),
                current_playlist: current_playlist@,
                up_next_name: up_next.0@,
                up_next_artist: up_next.1@,
                queue: pair_views(queue@),
                status: msg_loaded(playlists@.len()),
                ..old(self).full()
            }),
    {
        self.status = count_message("Loaded ", playlists.len(), " playlists");
        self.playlists = playlists;
        self.last_track_name = track.name.clone();
        self.track = track;
        self.volume = volume;
        self.shuffle = shuffle;
        self.repeat_mode = repeat_mode;
        self.current_playlist = current_playlist;
        self.up_next_name = up_next.0;
        self.up_next_artist = up_next.1;
        self.queue = queue;
    }
}

/// Whether the periodic refresh also reloads the playlists: on every
/// fifteenth poll.
pub fn reload_playlists_due(poll_count: u32) -> (r: bool)
    ensures
        r == (poll_count % 15 == 0),
{
    poll_count % 15 == 0
}

// ── Laws of the shared state ──────────────────────────────────────────

/// The recently played list never grows past fifty entries.
pub proof fn law_recent_bounded(
    recent: Seq<(Seq<char>, Seq<char>)>,
    last_name: Seq<char>,
    last_artist: Seq<char>,
    new_name: Seq<char>,
)
    requires
        recent.len() <= 50,
    ensures
        recent_after(recent, last_name, last_artist, new_name).len() <= 50,
{
}

/// After a change of track, the previous track heads the recently played
/// list, and the entries that were there follow in their order.
pub proof fn law_recent_front(
    recent: Seq<(Seq<char>, Seq<char>)>,
    last_name: Seq<char>,
    last_artist: Seq<char>,
    new_name: Seq<char>,
)
    requires
        new_name.len() > 0,
        last_name.len() > 0,
        new_name != last_name,
    ensures
        recent_after(recent, last_name, last_artist, new_name)[0].0 == last_name,
        recent.len() == 0 || recent[0].0 != last_name ==> ({
            let r = recent_after(recent, last_name, last_artist, new_name);
            &&& r[0] == (last_name, last_artist)
            &&& forall|i: int| 0 <= i < r.len() - 1 ==> r[i + 1] == recent[i]
        }),
{
}

/// Without a change of track (or without a name on either side), the
/// recently played list stays as it is.
pub proof fn law_recent_unchanged(
    recent: Seq<(Seq<char>, Seq<char>)>,
    last_name: Seq<char>,
    last_artist: Seq<char>,
)
    ensures
        recent_after(recent, last_name, last_artist, last_name) == recent,
        recent_after(recent, last_name, last_artist, Seq::<char>::empty()) == recent,
{
}

/// Muting and then unmuting gives the volume back, and remembers it.
pub proof fn law_mute_roundtrip(volume: int, pre: int)
    requires
        volume > 0,
    ensures
        mute_step(mute_step(volume, pre).0, mute_step(volume, pre).1) == (volume, volume),
{
}

/// From a volume between 0 and 100, turning it up or down stays between 0
/// and 100.
pub proof fn law_volume_in_range(volume: int)
    requires
        0 <= volume <= 100,
    ensures
        0 <= volume_raised(volume) <= 100,
        0 <= volume_lowered(volume) <= 100,
        volume_raised(volume) >= volume,
        volume_lowered(volume) <= volume,
{
}

/// Away from the ends of the range, a step up undoes a step down and the
/// other way round.
pub proof fn law_volume_steps_undo(volume: int)
    ensures
        0 <= volume <= 95 ==> volume_lowered(volume_raised(volume)) == volume,
        5 <= volume <= 100 ==> volume_raised(volume_lowered(volume)) == volume,
{
}

/// The repeat mode cycles off, all, one and back to off.
pub proof fn law_repeat_cycle()
    ensures
        next_repeat(Some("off"@)) == "all"@,
        next_repeat(Some("all"@)) == "one"@,
        next_repeat(Some("one"@)) == "off"@,
        next_repeat(None) == "all"@,
{
    reveal_strlit("off");
    reveal_strlit("all");
    reveal_strlit("one");
    assert("one"@[1] != "off"@[1]);
    assert("one"@[0] != "all"@[0]);
}

} // verus!
