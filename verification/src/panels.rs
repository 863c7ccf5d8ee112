use vstd::prelude::*;
use crate::display::{ellipsize, ellipsized, row_number, row_number_text, VolumeLevel};
use crate::model::{App, AppView, BrowseView, InputMode, SharedState, SharedView, ViewV};
use crate::player::PlayerState;
use crate::reply::opt_view;
use crate::state::SharedFull;
use crate::text::{append_chars, append_str, chars_of, decimal, decimal_chars, is_text, string_of, text_of};
use crate::theme::{Theme, ThemeColor};

verus! {

// ── The main panel's title and notice ─────────────────────────────────

/// The end of a search field: a bar in the cursor's on phase, a space in
/// its off phase.
pub open spec fn cursor_mark(on: bool) -> Seq<char> {
    if on {
        "▏"@
    } else {
        " "@
    }
}

/// A title showing the query being typed after `label`.
pub open spec fn typing_title(label: Seq<char>, q: Seq<char>, on: bool) -> Seq<char> {
    label + q + cursor_mark(on) + " "@
}

/// " {name} ({n}) ◂ Esc ", the title of a list that Esc leaves.
pub open spec fn back_title(name: Seq<char>, n: nat) -> Seq<char> {
    " "@ + name + " ("@ + decimal(n) + ") ◂ Esc "@
}

/// The title of the main panel: the query with its cursor while typing,
/// else what is listed and how many entries the list shows.
pub open spec fn panel_title_text(a: AppView, s: SharedView, on: bool) -> Seq<char> {
    match a.view {
        ViewV::Playlists => if a.mode == InputMode::Search {
            typing_title(" Search: "@, a.query, on)
        } else {
            " Library ("@ + decimal(a.filtered.len()) + ") "@
        },
        ViewV::Tracks(p) => if a.mode == InputMode::Search {
            typing_title(" Search: "@, a.query, on)
        } else {
            back_title(p, a.filtered_tracks.len())
        },
        ViewV::Artists => if a.mode == InputMode::Search {
            typing_title(" Search: "@, a.query, on)
        } else {
            back_title("Artists"@, a.filtered_artists.len())
        },
        ViewV::ArtistTracks(n) => back_title(n, a.filtered_artist_tracks.len()),
        ViewV::GlobalSearch => if a.mode == InputMode::Search {
            typing_title(" Library Search: "@, a.gs_query, on)
        } else {
            " Library Search: "@ + a.gs_query + " ("@ + decimal(a.gs_results.len()) + ") ◂ Esc "@
        },
        ViewV::RecentlyPlayed => " Recently Played ("@ + decimal(s.recent_tracks.len()) + ") "@,
    }
}

/// Appends the decimal digits of `n`.
fn append_count(v: &mut Vec<char>, n: usize)
    ensures
        final(v)@ == old(v)@ + decimal(n as nat),
{
    let d = decimal_chars(n as u64);
    append_chars(v, d.as_slice());
}

/// Appends `label`, the query and the cursor.
fn append_typing(v: &mut Vec<char>, label: &str, q: &String, on: bool)
    ensures
        final(v)@ == old(v)@ + typing_title(label@, q@, on),
{
    append_str(v, label);
    append_str(v, q.as_str());
    if on {
        append_str(v, "▏");
    } else {
        append_str(v, " ");
    }
    append_str(v, " ");
    assert(final(v)@ =~= old(v)@ + typing_title(label@, q@, on));
}

/// Appends a title of a list that Esc leaves.
fn append_back(v: &mut Vec<char>, name: &str, n: usize)
    ensures
        final(v)@ == old(v)@ + back_title(name@, n as nat),
{
    append_str(v, " ");
    append_str(v, name);
    append_str(v, " (");
    append_count(v, n);
    append_str(v, ") ◂ Esc ");
    assert(final(v)@ =~= old(v)@ + back_title(name@, n as nat));
}

/// The title of the main panel (see `panel_title_text`); `cursor_on` is
/// the blinking cursor's phase.
pub fn panel_title(app: &App, st: &SharedState, cursor_on: bool) -> (r: String)
    ensures
        r@ == panel_title_text(app@, st@, cursor_on),
{
    let mut v: Vec<char> = Vec::new();
    let typing = app.input_mode == InputMode::Search;
    match &app.browse_view {
        BrowseView::Playlists => {
            if typing {
                append_typing(&mut v, " Search: ", &app.search_query, cursor_on);
            } else {
                append_str(&mut v, " Library (");
                append_count(&mut v, app.filtered_indices.len());
                append_str(&mut v, ") ");
            }
        },
        BrowseView::Tracks(p) => {
            if typing {
                append_typing(&mut v, " Search: ", &app.search_query, cursor_on);
            } else {
                append_back(&mut v, p.as_str(), app.filtered_track_indices.len());
            }
        },
        BrowseView::Artists => {
            if typing {
                append_typing(&mut v, " Search: ", &app.search_query, cursor_on);
            } else {
                append_back(&mut v, "Artists", app.filtered_artist_indices.len());
            }
        },
        BrowseView::ArtistTracks(n) => {
            append_back(&mut v, n.as_str(), app.filtered_artist_track_indices.len());
        },
        BrowseView::GlobalSearch => {
            if typing {
                append_typing(&mut v, " Library Search: ", &app.global_search_query, cursor_on);
            } else {
                append_str(&mut v, " Library Search: ");
                append_str(&mut v, app.global_search_query.as_str());
                append_str(&mut v, " (");
                append_count(&mut v, app.global_search_results.len());
                append_str(&mut v, ") ◂ Esc ");
            }
        },
        BrowseView::RecentlyPlayed => {
            append_str(&mut v, " Recently Played (");
            append_count(&mut v, st.recent_tracks.len());
            append_str(&mut v, ") ");
        },
    }
    assert(v@ =~= panel_title_text(app@, st@, cursor_on));
    string_of(v.as_slice())
}

/// What the main panel says in place of a list: that it is still loading,
/// that the query matched nothing, or how to start; nothing when it shows
/// entries.
pub open spec fn panel_notice_text(a: AppView, s: SharedView) -> Option<Seq<char>> {
    match a.view {
        ViewV::Playlists => if s.playlists.len() == 0 {
            Some("  Loading..."@)
        } else if a.filtered.len() == 0 {
            Some("  No matches"@)
        } else {
            None
        },
        ViewV::Tracks(_) => if s.playlist_tracks.len() == 0 {
            Some("  Loading tracks..."@)
        } else if a.filtered_tracks.len() == 0 {
            Some("  No matches"@)
        } else {
            None
        },
        ViewV::Artists => if s.artists.len() == 0 {
            Some("  Loading artists..."@)
        } else {
            None
        },
        ViewV::ArtistTracks(_) => if s.artist_tracks.len() == 0 {
            Some("  Loading..."@)
        } else {
            None
        },
        ViewV::GlobalSearch => if a.gs_results.len() == 0 {
            if a.gs_query.len() == 0 {
                Some("  Type to search your library..."@)
            } else {
                Some("  No results"@)
            }
        } else {
            None
        },
        ViewV::RecentlyPlayed => if s.recent_tracks.len() == 0 {
            Some("  No recently played tracks yet"@)
        } else {
            None
        },
    }
}

/// The text of an optional notice.
pub open spec fn notice_view(n: Option<&str>) -> Option<Seq<char>> {
    match n {
        Some(t) => Some(t@),
        None => None,
    }
}

/// What the main panel says in place of a list (see `panel_notice_text`).
pub fn panel_notice(app: &App, st: &SharedState) -> (r: Option<&'static str>)
    ensures
        notice_view(r) == panel_notice_text(app@, st@),
{
    match &app.browse_view {
        BrowseView::Playlists => if st.playlists.len() == 0 {
            Some("  Loading...")
        } else if app.filtered_indices.len() == 0 {
            Some("  No matches")
        } else {
            None
        },
        BrowseView::Tracks(_) => if st.playlist_tracks.len() == 0 {
            Some("  Loading tracks...")
        } else if app.filtered_track_indices.len() == 0 {
            Some("  No matches")
        } else {
            None
        },
        BrowseView::Artists => if st.artists.len() == 0 {
            Some("  Loading artists...")
        } else {
            None
        },
        BrowseView::ArtistTracks(_) => if st.artist_tracks.len() == 0 {
            Some("  Loading...")
        } else {
            None
        },
        BrowseView::GlobalSearch => if app.global_search_results.len() == 0 {
            if app.global_search_query.as_str().is_empty() {
                Some("  Type to search your library...")
            } else {
                Some("  No results")
            }
        } else {
            None
        },
        BrowseView::RecentlyPlayed => if st.recent_tracks.len() == 0 {
            Some("  No recently played tracks yet")
        } else {
            None
        },
    }
}

/// What the now-playing box says when nothing plays: that the Music app is
/// not running, or that it is stopped.
pub open spec fn idle_notice_text(s: PlayerState) -> Option<Seq<char>> {
    match s {
        PlayerState::NotRunning => Some("Music app is not running"@),
        PlayerState::Stopped => Some("Nothing playing"@),
        _ => None,
    }
}

/// What the now-playing box says when nothing plays.
pub fn idle_notice(s: PlayerState) -> (r: Option<&'static str>)
    ensures
        notice_view(r) == idle_notice_text(s),
{
    match s {
        PlayerState::NotRunning => Some("Music app is not running"),
        PlayerState::Stopped => Some("Nothing playing"),
        _ => None,
    }
}

} // verus!

verus! {

// ── Playback settings ─────────────────────────────────────────────────

/// The shuffle badge in theme `t`: its text, colour, and whether it is bold.
pub open spec fn shuffle_badge_of(s: Option<bool>, t: Theme) -> (Seq<char>, ThemeColor, bool) {
    match s {
        Some(true) => ("⇆ On "@, t.green, true),
        Some(false) => ("⇆ Off "@, t.dim, false),
        None => ("⇆ ─ "@, t.dim, false),
    }
}

/// The shuffle badge (see `shuffle_badge_of`).
pub fn shuffle_badge(s: Option<bool>, theme: &Theme) -> (r: (&'static str, ThemeColor, bool))
    ensures
        (r.0@, r.1, r.2) == shuffle_badge_of(s, *theme),
{
    match s {
        Some(true) => ("⇆ On ", theme.green, true),
        Some(false) => ("⇆ Off ", theme.dim, false),
        None => ("⇆ ─ ", theme.dim, false),
    }
}

/// The repeat badge in theme `t`: all and one are lit, anything else
/// (unknown included) shows as off.
pub open spec fn repeat_badge_of(m: Option<Seq<char>>, t: Theme) -> (Seq<char>, ThemeColor, bool) {
    let off = ("↻ Off "@, t.dim, false);
    match m {
        Some(x) => if x == "all"@ {
            ("↻ All "@, t.green, true)
        } else if x == "one"@ {
            ("↻ One "@, t.yellow, true)
        } else {
            off
        },
        None => off,
    }
}

/// The repeat badge (see `repeat_badge_of`).
pub fn repeat_badge(mode: &Option<String>, theme: &Theme) -> (r: (&'static str, ThemeColor, bool))
    ensures
        (r.0@, r.1, r.2) == repeat_badge_of(opt_view(*mode), *theme),
{
    match mode {
        Some(m) => {
            let v = chars_of(m.as_str());
            if is_text(v.as_slice(), "all") {
                ("↻ All ", theme.green, true)
            } else if is_text(v.as_slice(), "one") {
                ("↻ One ", theme.yellow, true)
            } else {
                ("↻ Off ", theme.dim, false)
            }
        },
        None => ("↻ Off ", theme.dim, false),
    }
}

/// The icon and colour of a volume level in theme `t`.
pub open spec fn volume_badge_of(level: VolumeLevel, t: Theme) -> (Seq<char>, ThemeColor) {
    match level {
        VolumeLevel::Muted => ("🔇"@, t.red),
        VolumeLevel::Low => ("🔈"@, t.text_dim),
        VolumeLevel::Medium => ("🔉"@, t.accent),
        VolumeLevel::High => ("🔊"@, t.green),
    }
}

/// The icon and colour of a volume level.
pub fn volume_badge(level: VolumeLevel, theme: &Theme) -> (r: (&'static str, ThemeColor))
    ensures
        (r.0@, r.1) == volume_badge_of(level, *theme),
{
    match level {
        VolumeLevel::Muted => ("🔇", theme.red),
        VolumeLevel::Low => ("🔈", theme.text_dim),
        VolumeLevel::Medium => ("🔉", theme.accent),
        VolumeLevel::High => ("🔊", theme.green),
    }
}

} // verus!

verus! {

// ── The side panel ────────────────────────────────────────────────────

/// A line of the side panel.
#[derive(Clone, Debug, PartialEq)]
pub enum SideLine {
    /// "FROM" and the playlist being played.
    From(String),
    Blank,
    /// The "QUEUE" heading.
    Heading,
    /// A queued track: its number and its name.
    Entry(String, String),
    /// The artist under a queued track, indented.
    Artist(String),
    /// The mark for an empty queue.
    Nothing,
}

/// A side panel line in spec terms.
pub ghost enum SideLineV {
    From(Seq<char>),
    Blank,
    Heading,
    Entry(Seq<char>, Seq<char>),
    Artist(Seq<char>),
    Nothing,
}

/// `l` in spec terms.
pub open spec fn side_view(l: SideLine) -> SideLineV {
    match l {
        SideLine::From(s) => SideLineV::From(s@),
        SideLine::Blank => SideLineV::Blank,
        SideLine::Heading => SideLineV::Heading,
        SideLine::Entry(n, s) => SideLineV::Entry(n@, s@),
        SideLine::Artist(s) => SideLineV::Artist(s@),
        SideLine::Nothing => SideLineV::Nothing,
    }
}

/// Some lines in spec terms.
pub open spec fn side_views(v: Seq<SideLine>) -> Seq<SideLineV> {
    v.map_values(|l: SideLine| side_view(l))
}

/// The lines for the queued track at 0-based position `i`: its number and
/// its name cut to fit `width` with the number, then its artist, indented,
/// when it has one.
pub open spec fn queued_lines(name: Seq<char>, artist: Seq<char>, i: nat, width: nat) -> Seq<SideLineV> {
    let num = row_number_text(i + 1);
    let room: nat = if width > num.len() { (width - num.len()) as nat } else { 0 };
    let e = seq![SideLineV::Entry(num, ellipsized(name, room))];
    if artist.len() > 0 {
        e.push(SideLineV::Artist("    "@ + artist))
    } else {
        e
    }
}

/// The lines for a queue.
pub open spec fn queue_lines(q: Seq<(Seq<char>, Seq<char>)>, width: nat) -> Seq<SideLineV>
    decreases q.len(),
{
    if q.len() == 0 {
        Seq::<SideLineV>::empty()
    } else {
        queue_lines(q.drop_last(), width) + queued_lines(q.last().0, q.last().1, (q.len() - 1) as nat, width)
    }
}

/// The side panel `width` columns wide: the playlist being played when
/// known, a blank line, the queue heading, then the queue, or else the next
/// track (with its artist when known), or else the empty-queue mark.
pub open spec fn side_lines(f: SharedFull, width: nat) -> Seq<SideLineV> {
    let head = if f.current_playlist.len() > 0 {
        seq![SideLineV::From(f.current_playlist)]
    } else {
        Seq::<SideLineV>::empty()
    };
    let top = head + seq![SideLineV::Blank, SideLineV::Heading];
    if f.queue.len() > 0 {
        top + queue_lines(f.queue, width)
    } else if f.up_next_name.len() > 0 {
        top + seq![SideLineV::Entry(" 1. "@, f.up_next_name)] + if f.up_next_artist.len() > 0 {
            seq![SideLineV::Artist("    "@ + f.up_next_artist)]
        } else {
            Seq::<SideLineV>::empty()
        }
    } else {
        top + seq![SideLineV::Nothing]
    }
}

/// "    " followed by `s`.
fn indented(s: &String) -> (r: String)
    ensures
        r@ == "    "@ + s@,
{
    let mut v = chars_of("    ");
    append_str(&mut v, s.as_str());
    string_of(v.as_slice())
}

/// The lines of the side panel (see `side_lines`).
pub fn side_panel_lines(st: &SharedState, width: usize) -> (r: Vec<SideLine>)
    ensures
        side_views(r@) == side_lines(st.full(), width as nat),
{
    let mut r: Vec<SideLine> = Vec::new();
    if !st.current_playlist.as_str().is_empty() {
        r.push(SideLine::From(st.current_playlist.clone()));
    }
    r.push(SideLine::Blank);
    r.push(SideLine::Heading);
    let ghost top = side_views(r@);
    proof {
        let f = st.full();
        let head = if f.current_playlist.len() > 0 {
            seq![SideLineV::From(f.current_playlist)]
        } else {
            Seq::<SideLineV>::empty()
        };
        assert(top =~= head + seq![SideLineV::Blank, SideLineV::Heading]);
    }
    if st.queue.len() > 0 {
        let mut i: usize = 0;
        while i < st.queue.len()
            invariant
                i <= st.queue@.len(),
                side_views(r@) == top + queue_lines(st.full().queue.take(i as int), width as nat),
            decreases st.queue@.len() - i,
        {
            let ghost before = side_views(r@);
            let ghost q = st.full().queue;
            assert(q.take(i + 1).drop_last() =~= q.take(i as int));
            assert(q[i as int] == (st.queue@[i as int].0@, st.queue@[i as int].1@));
            let num = row_number(i + 1);
            let num_len = chars_of(num.as_str()).len();
            let room = if width > num_len { width - num_len } else { 0 };
            let name = ellipsize(st.queue[i].0.as_str(), room);
            r.push(SideLine::Entry(num, name));
            if !st.queue[i].1.as_str().is_empty() {
                r.push(SideLine::Artist(indented(&st.queue[i].1)));
            }
            assert(side_views(r@) =~= before + queued_lines(q[i as int].0, q[i as int].1, i as nat, width as nat));
            i = i + 1;
        }
        assert(st.full().queue.take(i as int) =~= st.full().queue);
    } else if !st.up_next_name.as_str().is_empty() {
        r.push(SideLine::Entry(text_of(" 1. "), st.up_next_name.clone()));
        if !st.up_next_artist.as_str().is_empty() {
            r.push(SideLine::Artist(indented(&st.up_next_artist)));
        }
    } else {
        r.push(SideLine::Nothing);
    }
    assert(side_views(r@) =~= side_lines(st.full(), width as nat));
    r
}

} // verus!
