use vstd::prelude::*;
use crate::model::{PlaylistTrack, TrackStatus, TrackView, track_view, track_views};
use crate::reply::string_views;
use crate::text::{append_chars, chars_of, decimal, decimal_chars, digit_char, digit_of, same_chars, string_of};

verus! {

// ── Times ─────────────────────────────────────────────────────────────

/// Two decimal digits for `n` below 100, with a leading zero.
pub open spec fn two_digits(n: nat) -> Seq<char> {
    seq![digit_char(n / 10), digit_char(n % 10)]
}

/// A length of `total` seconds as minutes and two-digit seconds, "m:ss".
pub open spec fn clock_text(total: nat) -> Seq<char> {
    decimal(total / 60) + seq![':'] + two_digits(total % 60)
}

/// A length of `total` whole seconds as "m:ss" ("0:00" for none).
pub fn format_clock(total: u64) -> (r: String)
    ensures
        r@ == clock_text(total as nat),
{
    let m = total / 60;
    let s = total % 60;
    let mut v = decimal_chars(m);
    v.push(':');
    v.push(digit_of(s / 10));
    v.push(digit_of(s % 10));
    assert(v@ =~= clock_text(total as nat));
    string_of(v.as_slice())
}

// ── Fitting names into columns ────────────────────────────────────────

/// `name` cut to fit `max` characters: longer names keep their first
/// `max - 1` characters and end in an ellipsis.
pub open spec fn ellipsized(name: Seq<char>, max: nat) -> Seq<char> {
    if name.len() > max {
        name.take(if max >= 1 { max - 1 } else { 0 }) + seq!['…']
    } else {
        name
    }
}

/// `name` cut to fit `max` characters, ending in an ellipsis when cut.
pub fn ellipsize(name: &str, max: usize) -> (r: String)
    ensures
        r@ == ellipsized(name@, max as nat),
{
    let v = chars_of(name);
    if v.len() > max {
        let limit = if max >= 1 { max - 1 } else { 0 };
        let mut w: Vec<char> = Vec::new();
        let mut i: usize = 0;
        while i < limit
            invariant
                i <= limit < v@.len(),
                w@ == v@.take(i as int),
            decreases limit - i,
        {
            w.push(v[i]);
            assert(v@.take(i + 1) =~= v@.take(i as int).push(v@[i as int]));
            i = i + 1;
        }
        w.push('…');
        string_of(w.as_slice())
    } else {
        string_of(v.as_slice())
    }
}

/// The first `max` characters of `name` (all of it when shorter).
pub fn clip(name: &str, max: usize) -> (r: String)
    ensures
        r@ == (if name@.len() > max { name@.take(max as int) } else { name@ }),
{
    let v = chars_of(name);
    let limit = if v.len() > max { max } else { v.len() };
    let mut w: Vec<char> = Vec::new();
    let mut i: usize = 0;
    while i < limit
        invariant
            i <= limit <= v@.len(),
            w@ == v@.take(i as int),
        decreases limit - i,
    {
        w.push(v[i]);
        assert(v@.take(i + 1) =~= v@.take(i as int).push(v@[i as int]));
        i = i + 1;
    }
    assert(limit == v@.len() ==> v@.take(limit as int) =~= v@);
    string_of(w.as_slice())
}

/// The number of a list row, right-aligned in two columns and followed
/// by ". " (" 1. ", "12. ").
pub open spec fn row_number_text(n: nat) -> Seq<char> {
    (if n < 10 {
        seq![' ']
    } else {
        Seq::<char>::empty()
    }) + decimal(n) + seq!['.', ' ']
}

/// The label of list row `n`.
pub fn row_number(n: usize) -> (r: String)
    ensures
        r@ == row_number_text(n as nat),
{
    let mut v: Vec<char> = Vec::new();
    if n < 10 {
        v.push(' ');
    }
    let d = decimal_chars(n as u64);
    append_chars(&mut v, d.as_slice());
    v.push('.');
    v.push(' ');
    assert(v@ =~= row_number_text(n as nat));
    string_of(v.as_slice())
}

// ── The volume meter ──────────────────────────────────────────────────

/// How loud the volume is, for its icon and colour.
#[derive(Clone, Copy, Debug, PartialEq, Eq, Structural)]
pub enum VolumeLevel {
    Muted,
    Low,
    Medium,
    High,
}

/// The level of a volume: 0 is muted, below 30 low, below 70 medium,
/// else high.
pub open spec fn volume_level_of(v: int) -> VolumeLevel {
    if v == 0 {
        VolumeLevel::Muted
    } else if v < 30 {
        VolumeLevel::Low
    } else if v < 70 {
        VolumeLevel::Medium
    } else {
        VolumeLevel::High
    }
}

/// The volume meter for `volume`: ten cells, of which `volume * 10 / 100`
/// are filled, and the level.
pub fn volume_meter(volume: i32) -> (r: (usize, usize, VolumeLevel))
    requires
        0 <= volume <= 109,
    ensures
        r.0 == volume * 10 / 100,
        r.1 == 10 - volume * 10 / 100,
        r.2 == volume_level_of(volume as int),
{
    let filled = (volume as usize * 10) / 100;
    let level = if volume == 0 {
        VolumeLevel::Muted
    } else if volume < 30 {
        VolumeLevel::Low
    } else if volume < 70 {
        VolumeLevel::Medium
    } else {
        VolumeLevel::High
    };
    (filled, 10 - filled, level)
}

// ── Overlays ──────────────────────────────────────────────────────────

/// A box of at most `want` columns and rows, kept 4 short of the area in
/// each direction, centred in an area of `area_w` by `area_h`: its
/// column, row, width and height.
pub open spec fn centered_box(area_w: nat, area_h: nat, want_w: nat, want_h: nat) -> (nat, nat, nat, nat) {
    let aw: nat = if area_w >= 4 { (area_w - 4) as nat } else { 0 };
    let ah: nat = if area_h >= 4 { (area_h - 4) as nat } else { 0 };
    let w: nat = if want_w < aw { want_w } else { aw };
    let h: nat = if want_h < ah { want_h } else { ah };
    (((area_w - w) / 2) as nat, ((area_h - h) / 2) as nat, w, h)
}

/// The place of an overlay box in the area (see `centered_box`).
pub fn centered(area_w: u16, area_h: u16, want_w: u16, want_h: u16) -> (r: (u16, u16, u16, u16))
    ensures
        (r.0 as nat, r.1 as nat, r.2 as nat, r.3 as nat) == centered_box(
            area_w as nat,
            area_h as nat,
            want_w as nat,
            want_h as nat,
        ),
{
    let aw = if area_w >= 4 { area_w - 4 } else { 0 };
    let ah = if area_h >= 4 { area_h - 4 } else { 0 };
    let w = if want_w < aw { want_w } else { aw };
    let h = if want_h < ah { want_h } else { ah };
    ((area_w - w) / 2, (area_h - h) / 2, w, h)
}

/// The rows an overlay listing `rows` entries asks for: four more than the
/// entries, held within the area (four short of it), and at least
/// `at_least`.
pub fn overlay_height(rows: u16, area_h: u16, at_least: u16) -> (r: u16)
    requires
        rows <= u16::MAX - 4,
    ensures
        r as int == ({
            let ah: int = if area_h >= 4 { area_h - 4 } else { 0 };
            let h: int = if rows + 4 < ah { rows + 4 } else { ah };
            if h > at_least { h } else { at_least as int }
        }),
{
    let ah = if area_h >= 4 { area_h - 4 } else { 0 };
    let h = if rows + 4 < ah { rows + 4 } else { ah };
    if h > at_least { h } else { at_least }
}

// ── Rows of the listings ──────────────────────────────────────────────

/// How a row of a track listing is shown: whether it is the track being
/// played, its name cut to fit, its artist and its length.
#[derive(Clone, Debug, PartialEq)]
pub struct TrackLine {
    pub playing: bool,
    pub name: String,
    pub artist: String,
    pub duration: String,
}

/// A track row in spec terms.
pub ghost struct TrackLineV {
    pub playing: bool,
    pub name: Seq<char>,
    pub artist: Seq<char>,
    pub duration: Seq<char>,
}

/// `l` in spec terms.
pub open spec fn line_view(l: TrackLine) -> TrackLineV {
    TrackLineV { playing: l.playing, name: l.name@, artist: l.artist@, duration: l.duration@ }
}

/// Some rows in spec terms.
pub open spec fn line_views(v: Seq<TrackLine>) -> Seq<TrackLineV> {
    v.map_values(|l: TrackLine| line_view(l))
}

/// Whether listed track `t` is the current track: the current track has a
/// name, and name and artist are both the same.
pub open spec fn plays_now(t: TrackView, now_name: Seq<char>, now_artist: Seq<char>) -> bool {
    now_name.len() > 0 && t.name == now_name && t.artist == now_artist
}

/// The columns the row's mark takes, as the layout counts it: the bytes of
/// "▶ " for the current track, of two spaces otherwise.
pub open spec fn prefix_width(playing: bool) -> nat {
    if playing {
        4
    } else {
        2
    }
}

/// The room left for a track's name in a row `max_width` wide, after its
/// mark, its length, and its artist (and separating spaces) when shown.
pub open spec fn name_room(max_width: nat, t: TrackView, playing: bool, with_artist: bool) -> nat {
    let used = clock_text(t.duration).len() + prefix_width(playing) + if with_artist {
        t.artist.len() + 5
    } else {
        3
    };
    if max_width > used {
        (max_width - used) as nat
    } else {
        0
    }
}

/// The row for track `t` in a listing `max_width` wide, the current track
/// being `now_name` by `now_artist`.
pub open spec fn line_of(t: TrackView, now_name: Seq<char>, now_artist: Seq<char>, max_width: nat, with_artist: bool) -> TrackLineV {
    let playing = plays_now(t, now_name, now_artist);
    TrackLineV {
        playing: playing,
        name: ellipsized(t.name, name_room(max_width, t, playing, with_artist)),
        artist: t.artist,
        duration: clock_text(t.duration),
    }
}

/// The row arithmetic for `t` stays within `usize`.
pub open spec fn line_fits(t: TrackView) -> bool {
    t.artist.len() + clock_text(t.duration).len() + 9 <= usize::MAX
}

/// The row for track `t` in a listing `max_width` wide, `now` being the
/// current track.
pub fn track_line(t: &PlaylistTrack, now: &TrackStatus, max_width: usize, with_artist: bool) -> (r: TrackLine)
    requires
        t.artist@.len() + clock_text(t.duration as nat).len() + 9 <= usize::MAX,
    ensures
        r.playing == plays_now(track_view(*t), now.name@, now.artist@),
        r.duration@ == clock_text(t.duration as nat),
        r.name@ == ellipsized(t.name@, name_room(max_width as nat, track_view(*t), r.playing, with_artist)),
        r.artist@ == t.artist@,
        line_view(r) == line_of(track_view(*t), now.name@, now.artist@, max_width as nat, with_artist),
{
    let name_v = chars_of(t.name.as_str());
    let artist_v = chars_of(t.artist.as_str());
    let now_v = chars_of(now.name.as_str());
    let now_artist_v = chars_of(now.artist.as_str());
    let playing = now_v.len() > 0 && same_chars(name_v.as_slice(), now_v.as_slice()) && same_chars(
        artist_v.as_slice(),
        now_artist_v.as_slice(),
    );
    let duration = format_clock(t.duration);
    let dur_len = chars_of(duration.as_str()).len();
    let prefix: usize = if playing { 4 } else { 2 };
    let extra: usize = if with_artist { artist_v.len() + 5 } else { 3 };
    let used = dur_len + prefix + extra;
    let room = if max_width > used { max_width - used } else { 0 };
    let name = ellipsize(t.name.as_str(), room);
    TrackLine { playing, name, artist: t.artist.clone(), duration }
}

/// The rows of a filtered track listing: one for each filtered position
/// that is in range, in the order of `f`.
pub open spec fn track_rows_of(
    f: Seq<usize>,
    ts: Seq<TrackView>,
    now_name: Seq<char>,
    now_artist: Seq<char>,
    max_width: nat,
    with_artist: bool,
) -> Seq<TrackLineV>
    decreases f.len(),
{
    if f.len() == 0 {
        Seq::<TrackLineV>::empty()
    } else {
        let prev = track_rows_of(f.drop_last(), ts, now_name, now_artist, max_width, with_artist);
        let i = f.last() as int;
        if i < ts.len() {
            prev.push(line_of(ts[i], now_name, now_artist, max_width, with_artist))
        } else {
            prev
        }
    }
}

/// The rows of a track listing filtered to the positions `filtered` (see
/// `track_rows_of`), `now` being the current track.
pub fn track_rows(
    filtered: &Vec<usize>,
    tracks: &Vec<PlaylistTrack>,
    now: &TrackStatus,
    max_width: usize,
    with_artist: bool,
) -> (r: Vec<TrackLine>)
    requires
        forall|i: int| 0 <= i < tracks@.len() ==> #[trigger] line_fits(track_view(tracks@[i])),
    ensures
        line_views(r@) == track_rows_of(
            filtered@,
            track_views(tracks@),
            now.name@,
            now.artist@,
            max_width as nat,
            with_artist,
        ),
{
    let mut r: Vec<TrackLine> = Vec::new();
    let mut k: usize = 0;
    while k < filtered.len()
        invariant
            k <= filtered@.len(),
            forall|i: int| 0 <= i < tracks@.len() ==> #[trigger] line_fits(track_view(tracks@[i])),
            line_views(r@) == track_rows_of(
                filtered@.take(k as int),
                track_views(tracks@),
                now.name@,
                now.artist@,
                max_width as nat,
                with_artist,
            ),
        decreases filtered@.len() - k,
    {
        let i = filtered[k];
        let ghost before = line_views(r@);
        assert(filtered@.take(k + 1).drop_last() =~= filtered@.take(k as int));
        assert(filtered@.take(k + 1).last() == i);
        if i < tracks.len() {
            assert(line_fits(track_view(tracks@[i as int])));
            let line = track_line(&tracks[i], now, max_width, with_artist);
            r.push(line);
            assert(track_views(tracks@)[i as int] == track_view(tracks@[i as int]));
            assert(line_views(r@) =~= before.push(line_view(line)));
        }
        k = k + 1;
    }
    assert(filtered@.take(k as int) =~= filtered@);
    r
}

/// The views of some listed names with their flags.
pub open spec fn flag_views(v: Seq<(String, bool)>) -> Seq<(Seq<char>, bool)> {
    v.map_values(|p: (String, bool)| (p.0@, p.1))
}

/// The names at the positions `f` (those in range, in the order of `f`),
/// each flagged when it is the non-empty name `current`.
pub open spec fn listed_names(f: Seq<usize>, names: Seq<Seq<char>>, current: Seq<char>) -> Seq<(Seq<char>, bool)>
    decreases f.len(),
{
    if f.len() == 0 {
        Seq::<(Seq<char>, bool)>::empty()
    } else {
        let prev = listed_names(f.drop_last(), names, current);
        let i = f.last() as int;
        if i < names.len() {
            prev.push((names[i], current.len() > 0 && names[i] == current))
        } else {
            prev
        }
    }
}

/// The rows of a filtered listing of names: the names at the filtered
/// positions, each flagged when it is `current` (see `listed_names`).
pub fn listed_entries(filtered: &Vec<usize>, names: &Vec<String>, current: &String) -> (r: Vec<(String, bool)>)
    ensures
        flag_views(r@) == listed_names(filtered@, string_views(names@), current@),
{
    let cur = chars_of(current.as_str());
    let mut r: Vec<(String, bool)> = Vec::new();
    let mut k: usize = 0;
    while k < filtered.len()
        invariant
            k <= filtered@.len(),
            cur@ == current@,
            flag_views(r@) == listed_names(filtered@.take(k as int), string_views(names@), current@),
        decreases filtered@.len() - k,
    {
        let i = filtered[k];
        let ghost before = flag_views(r@);
        assert(filtered@.take(k + 1).drop_last() =~= filtered@.take(k as int));
        assert(filtered@.take(k + 1).last() == i);
        if i < names.len() {
            let nm = chars_of(names[i].as_str());
            let is_cur = cur.len() > 0 && same_chars(nm.as_slice(), cur.as_slice());
            let entry = (names[i].clone(), is_cur);
            r.push(entry);
            assert(string_views(names@)[i as int] == names@[i as int]@);
            assert(flag_views(r@) =~= before.push((entry.0@, entry.1)));
        }
        k = k + 1;
    }
    assert(filtered@.take(k as int) =~= filtered@);
    r
}

} // verus!
