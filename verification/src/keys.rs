use vstd::prelude::*;
use crate::model::{
    no_effects, two_effects, three_effects, one_effect, status_of,
    App, AppView, BrowseView, Effect, EffectV, InputMode, KeyCode, KeyInput, PlaylistTrack, Refresh,
    SharedState, SharedView, TrackView, ViewV, apply_refresh, effect_view, effects_view, message,
    nav_down, nav_up, refresh_for_view, select_down, select_up, track_view,
};
use crate::reply::opt_view;
use crate::text::{pop_char, push_char, text_of};
use crate::theme::{next_theme, theme_label, ThemeName};

verus! {

// ── What a key does ───────────────────────────────────────────────────

/// The outcome of a key before the filtered lists are recomputed: the new
/// browsing state, the work it sets off, and which list to recompute.
pub ghost struct Step {
    pub app: AppView,
    pub effects: Seq<EffectV>,
    pub refresh: Refresh,
}

/// A change of state and nothing else.
pub open spec fn quiet(a: AppView) -> Step {
    Step { app: a, effects: Seq::<EffectV>::empty(), refresh: Refresh::Nothing }
}

/// A change of state with some effects.
pub open spec fn acting(a: AppView, e: Seq<EffectV>) -> Step {
    Step { app: a, effects: e, refresh: Refresh::Nothing }
}

/// The status line for playing something.
pub open spec fn msg_playing(n: Seq<char>) -> Seq<char> {
    "Playing: "@ + n
}

/// The status line for loading a playlist's tracks.
pub open spec fn msg_loading_tracks(n: Seq<char>) -> Seq<char> {
    "Loading tracks: "@ + n
}

/// The status line for loading an artist's tracks.
pub open spec fn msg_loading(n: Seq<char>) -> Seq<char> {
    "Loading: "@ + n
}

/// The status line for switching an AirPlay device.
pub open spec fn msg_toggling(n: Seq<char>) -> Seq<char> {
    "Toggling: "@ + n
}

/// The status line for adding the current track to a playlist.
pub open spec fn msg_added(t: Seq<char>, p: Seq<char>) -> Seq<char> {
    "Added \""@ + t + "\" to "@ + p
}

/// The status line for a library search.
pub open spec fn msg_searching(q: Seq<char>) -> Seq<char> {
    "Searching: "@ + q
}

/// The status line for a new theme.
pub open spec fn msg_theme(t: ThemeName) -> Seq<char> {
    "Theme: "@ + theme_label(t)
}

/// The status line for switching between the mini and the full layout.
pub open spec fn msg_mode(mini: bool) -> Seq<char> {
    if mini {
        "Mini mode"@
    } else {
        "Full mode"@
    }
}

// ── Selected entries ──────────────────────────────────────────────────

/// The playlist selected in the filtered playlist list.
pub open spec fn selected_playlist(a: AppView, s: SharedView) -> Option<Seq<char>> {
    match a.list_sel {
        Some(sel) => if sel < a.filtered.len() && a.filtered[sel as int] < s.playlists.len() {
            Some(s.playlists[a.filtered[sel as int] as int])
        } else {
            None
        },
        None => None,
    }
}

/// The track selected in the filtered track list.
pub open spec fn selected_track(a: AppView, s: SharedView) -> Option<TrackView> {
    match a.track_sel {
        Some(sel) => if sel < a.filtered_tracks.len() && a.filtered_tracks[sel as int]
            < s.playlist_tracks.len() {
            Some(s.playlist_tracks[a.filtered_tracks[sel as int] as int])
        } else {
            None
        },
        None => None,
    }
}

/// The artist selected in the filtered artist list.
pub open spec fn selected_artist(a: AppView, s: SharedView) -> Option<Seq<char>> {
    match a.artist_sel {
        Some(sel) => if sel < a.filtered_artists.len() && a.filtered_artists[sel as int]
            < s.artists.len() {
            Some(s.artists[a.filtered_artists[sel as int] as int])
        } else {
            None
        },
        None => None,
    }
}

/// The track selected in the filtered list of an artist's tracks.
pub open spec fn selected_artist_track(a: AppView, s: SharedView) -> Option<TrackView> {
    match a.artist_track_sel {
        Some(sel) => if sel < a.filtered_artist_tracks.len() && a.filtered_artist_tracks[sel as int]
            < s.artist_tracks.len() {
            Some(s.artist_tracks[a.filtered_artist_tracks[sel as int] as int])
        } else {
            None
        },
        None => None,
    }
}

/// The selected search result.
pub open spec fn selected_result(a: AppView) -> Option<TrackView> {
    match a.gs_sel {
        Some(sel) => if sel < a.gs_results.len() {
            Some(a.gs_results[sel as int])
        } else {
            None
        },
        None => None,
    }
}

/// The selected recently played track.
pub open spec fn selected_recent(a: AppView, s: SharedView) -> Option<(Seq<char>, Seq<char>)> {
    match a.recent_sel {
        Some(sel) => if sel < s.recent_tracks.len() {
            Some(s.recent_tracks[sel as int])
        } else {
            None
        },
        None => None,
    }
}

// ── Opening and playing the selection ─────────────────────────────────

/// Opening the selected playlist: show its tracks (from the top) and load
/// them; `clear` also empties the query.
pub open spec fn act_playlists(a: AppView, s: SharedView, clear: bool) -> Step {
    match selected_playlist(a, s) {
        Some(n) => acting(
            AppView {
                view: ViewV::Tracks(n),
                track_sel: Some(0),
                query: if clear {
                    Seq::<char>::empty()
                } else {
                    a.query
                },
                ..a
            },
            seq![EffectV::Status(msg_loading_tracks(n)), EffectV::LoadPlaylistTracks(n)],
        ),
        None => quiet(a),
    }
}

/// Playing the selected track of playlist `pl` by its position.
pub open spec fn act_tracks(a: AppView, s: SharedView, pl: Seq<char>) -> Step {
    match selected_track(a, s) {
        Some(t) => acting(
            a,
            seq![EffectV::Status(msg_playing(t.name)), EffectV::PlayTrackInPlaylist(pl, t.index)],
        ),
        None => quiet(a),
    }
}

/// Playing the selected search result by name and artist.
pub open spec fn act_result(a: AppView) -> Step {
    match selected_result(a) {
        Some(t) => acting(
            a,
            seq![EffectV::Status(msg_playing(t.name)), EffectV::PlayLibraryTrack(t.name, t.artist)],
        ),
        None => quiet(a),
    }
}

/// Opening the selected artist: show their tracks (from the top) and load
/// them; `clear` also empties the query.
pub open spec fn act_artists(a: AppView, s: SharedView, clear: bool) -> Step {
    match selected_artist(a, s) {
        Some(n) => acting(
            AppView {
                view: ViewV::ArtistTracks(n),
                artist_track_sel: Some(0),
                query: if clear {
                    Seq::<char>::empty()
                } else {
                    a.query
                },
                ..a
            },
            seq![EffectV::Status(msg_loading(n)), EffectV::LoadArtistTracks(n)],
        ),
        None => quiet(a),
    }
}

/// Playing the selected track of an artist by name and artist.
pub open spec fn act_artist_tracks(a: AppView, s: SharedView) -> Step {
    match selected_artist_track(a, s) {
        Some(t) => acting(
            a,
            seq![EffectV::Status(msg_playing(t.name)), EffectV::PlayLibraryTrack(t.name, t.artist)],
        ),
        None => quiet(a),
    }
}

/// Playing the selected recently played track by name and artist.
pub open spec fn act_recent(a: AppView, s: SharedView) -> Step {
    match selected_recent(a, s) {
        Some(p) => acting(
            a,
            seq![EffectV::Status(msg_playing(p.0)), EffectV::PlayLibraryTrack(p.0, p.1)],
        ),
        None => quiet(a),
    }
}

// ── The list the arrow keys move in ───────────────────────────────────

/// The length of the list the current view shows.
pub open spec fn active_len(a: AppView, s: SharedView) -> nat {
    match a.view {
        ViewV::Playlists => a.filtered.len(),
        ViewV::Tracks(_) => a.filtered_tracks.len(),
        ViewV::GlobalSearch => a.gs_results.len(),
        ViewV::Artists => a.filtered_artists.len(),
        ViewV::ArtistTracks(_) => a.filtered_artist_tracks.len(),
        ViewV::RecentlyPlayed => s.recent_tracks.len(),
    }
}

/// The selection in the list the current view shows.
pub open spec fn active_sel(a: AppView) -> Option<usize> {
    match a.view {
        ViewV::Playlists => a.list_sel,
        ViewV::Tracks(_) => a.track_sel,
        ViewV::GlobalSearch => a.gs_sel,
        ViewV::Artists => a.artist_sel,
        ViewV::ArtistTracks(_) => a.artist_track_sel,
        ViewV::RecentlyPlayed => a.recent_sel,
    }
}

/// `a` with the selection of the current view's list set to `v`.
pub open spec fn with_active_sel(a: AppView, v: Option<usize>) -> AppView {
    match a.view {
        ViewV::Playlists => AppView { list_sel: v, ..a },
        ViewV::Tracks(_) => AppView { track_sel: v, ..a },
        ViewV::GlobalSearch => AppView { gs_sel: v, ..a },
        ViewV::Artists => AppView { artist_sel: v, ..a },
        ViewV::ArtistTracks(_) => AppView { artist_track_sel: v, ..a },
        ViewV::RecentlyPlayed => AppView { recent_sel: v, ..a },
    }
}

/// Moving `n` rows down the current list.
pub open spec fn move_down(a: AppView, s: SharedView, n: nat) -> AppView {
    with_active_sel(a, nav_down(active_sel(a), active_len(a, s), n))
}

/// Moving `n` rows up the current list.
pub open spec fn move_up(a: AppView, n: nat) -> AppView {
    with_active_sel(a, nav_up(active_sel(a), n))
}

// ── The overlays ──────────────────────────────────────────────────────

/// A key while the AirPlay overlay is open: Esc, `a` or `q` close it,
/// Down/`j` and Up/`k` move, Enter or Space switch the selected device
/// and reload the device list.
pub open spec fn airplay_step(a: AppView, k: KeyInput) -> Step {
    let c = k.code;
    if c == KeyCode::Esc || c == KeyCode::Char('a') || c == KeyCode::Char('q') {
        quiet(AppView { show_airplay: false, ..a })
    } else if c == KeyCode::Down || c == KeyCode::Char('j') {
        quiet(AppView { airplay_sel: nav_down(a.airplay_sel, a.devices.len(), 1), ..a })
    } else if c == KeyCode::Up || c == KeyCode::Char('k') {
        quiet(AppView { airplay_sel: nav_up(a.airplay_sel, 1), ..a })
    } else if c == KeyCode::Enter || c == KeyCode::Char(' ') {
        match a.airplay_sel {
            Some(sel) => if sel < a.devices.len() {
                acting(
                    a,
                    seq![
                        EffectV::Status(msg_toggling(a.devices[sel as int].0)),
                        EffectV::ToggleAirplay(a.devices[sel as int].0),
                        EffectV::LoadAirplayDevices,
                    ],
                )
            } else {
                quiet(a)
            },
            None => quiet(a),
        }
    } else {
        quiet(a)
    }
}

/// A key while the add-to-playlist overlay is open: Esc, `o` or `q` close
/// it, Down/`j` and Up/`k` move, Enter adds the current track to the
/// selected playlist and closes the overlay.
pub open spec fn add_step(a: AppView, s: SharedView, k: KeyInput) -> Step {
    let c = k.code;
    if c == KeyCode::Esc || c == KeyCode::Char('o') || c == KeyCode::Char('q') {
        quiet(AppView { show_add: false, ..a })
    } else if c == KeyCode::Down || c == KeyCode::Char('j') {
        quiet(AppView { add_sel: nav_down(a.add_sel, s.playlists.len(), 1), ..a })
    } else if c == KeyCode::Up || c == KeyCode::Char('k') {
        quiet(AppView { add_sel: nav_up(a.add_sel, 1), ..a })
    } else if c == KeyCode::Enter {
        match a.add_sel {
            Some(sel) => if sel < s.playlists.len() {
                acting(
                    AppView { show_add: false, ..a },
                    seq![
                        EffectV::Status(msg_added(s.track_name, s.playlists[sel as int])),
                        EffectV::AddToPlaylist(s.playlists[sel as int]),
                    ],
                )
            } else {
                quiet(a)
            },
            None => quiet(a),
        }
    } else {
        quiet(a)
    }
}

// ── Typing a query ────────────────────────────────────────────────────

/// A key while typing a library search: Esc stops typing (and goes back
/// to the playlists when nothing was found), Enter plays the selected
/// result or else runs the search, Backspace deletes, Down/Up move, other
/// characters are typed.
pub open spec fn global_search_step(a: AppView, k: KeyInput) -> Step {
    let c = k.code;
    let normal = AppView { mode: InputMode::Normal, ..a };
    if c == KeyCode::Esc {
        if a.gs_results.len() == 0 {
            Step {
                app: AppView { view: ViewV::Playlists, ..normal },
                effects: Seq::<EffectV>::empty(),
                refresh: Refresh::Playlists,
            }
        } else {
            quiet(normal)
        }
    } else if c == KeyCode::Enter {
        match a.gs_sel {
            Some(_) => act_result(normal),
            None => if a.gs_query.len() > 0 {
                acting(
                    normal,
                    seq![EffectV::Status(msg_searching(a.gs_query)), EffectV::SearchLibrary(a.gs_query)],
                )
            } else {
                quiet(normal)
            },
        }
    } else if c == KeyCode::Backspace {
        quiet(
            AppView {
                gs_query: if a.gs_query.len() > 0 {
                    a.gs_query.drop_last()
                } else {
                    a.gs_query
                },
                ..a
            },
        )
    } else if c == KeyCode::Down {
        quiet(AppView { gs_sel: nav_down(a.gs_sel, a.gs_results.len(), 1), ..a })
    } else if c == KeyCode::Up {
        quiet(AppView { gs_sel: nav_up(a.gs_sel, 1), ..a })
    } else {
        match c {
            KeyCode::Char(ch) => quiet(AppView { gs_query: a.gs_query.push(ch), ..a }),
            _ => quiet(a),
        }
    }
}

/// Enter while typing a filter query, before typing stops: play the
/// selected track, or open the selected artist or playlist.
pub open spec fn search_open(a: AppView, s: SharedView) -> Step {
    match a.view {
        ViewV::Tracks(pl) => act_tracks(a, s, pl),
        ViewV::Artists => act_artists(a, s, false),
        ViewV::ArtistTracks(_) => act_artist_tracks(a, s),
        ViewV::Playlists => act_playlists(a, s, false),
        _ => quiet(a),
    }
}

/// A key while typing a filter query: Esc stops typing and clears the
/// query, Enter opens or plays the selection and stops typing, Backspace
/// deletes, Down/Up move, other characters are typed; the current list is
/// refiltered after each change of the query.
pub open spec fn search_step(a: AppView, s: SharedView, k: KeyInput) -> Step {
    let c = k.code;
    if a.view is GlobalSearch {
        global_search_step(a, k)
    } else if c == KeyCode::Esc {
        Step {
            app: AppView { mode: InputMode::Normal, query: Seq::<char>::empty(), ..a },
            effects: Seq::<EffectV>::empty(),
            refresh: refresh_for_view(a.view),
        }
    } else if c == KeyCode::Enter {
        let st = search_open(a, s);
        Step {
            app: AppView { mode: InputMode::Normal, query: Seq::<char>::empty(), ..st.app },
            effects: st.effects,
            refresh: refresh_for_view(st.app.view),
        }
    } else if c == KeyCode::Backspace {
        Step {
            app: AppView {
                query: if a.query.len() > 0 {
                    a.query.drop_last()
                } else {
                    a.query
                },
                ..a
            },
            effects: Seq::<EffectV>::empty(),
            refresh: refresh_for_view(a.view),
        }
    } else if c == KeyCode::Down {
        quiet(move_down(a, s, 1))
    } else if c == KeyCode::Up {
        quiet(move_up(a, 1))
    } else {
        match c {
            KeyCode::Char(ch) => Step {
                app: AppView { query: a.query.push(ch), ..a },
                effects: Seq::<EffectV>::empty(),
                refresh: refresh_for_view(a.view),
            },
            _ => quiet(a),
        }
    }
}

} // verus!

verus! {

// ── Commands ──────────────────────────────────────────────────────────

/// The state on opening the library search: typing into an empty query
/// with no results.
pub open spec fn open_global_search(a: AppView) -> AppView {
    AppView {
        view: ViewV::GlobalSearch,
        mode: InputMode::Search,
        gs_query: Seq::<char>::empty(),
        gs_results: Seq::<TrackView>::empty(),
        gs_sel: None,
        ..a
    }
}

/// Going back from the current view: from an artist's tracks to the
/// artists, from any other list to the playlists; the query is cleared.
pub open spec fn go_back(a: AppView) -> Step {
    match a.view {
        ViewV::ArtistTracks(_) => Step {
            app: AppView { view: ViewV::Artists, query: Seq::<char>::empty(), ..a },
            effects: Seq::<EffectV>::empty(),
            refresh: Refresh::Artists,
        },
        _ => Step {
            app: AppView { view: ViewV::Playlists, query: Seq::<char>::empty(), ..a },
            effects: Seq::<EffectV>::empty(),
            refresh: Refresh::Playlists,
        },
    }
}

/// A key `c` given as one of two characters.
pub open spec fn is_key(c: KeyCode, x: char, y: char) -> bool {
    c == KeyCode::Char(x) || c == KeyCode::Char(y)
}

/// A command key. While the help is shown any key but `?` just closes it.
/// Otherwise: `q` goes back (and quits from the playlists), `?` toggles
/// the help, Space/`n`/`p`/`s` control playback, `l`/`x`/`v` toggle love,
/// shuffle and repeat, `+`/`=`/`-`/`m` change the volume, Left/Right seek,
/// Down/`j`, Up/`k`, `g`, `G`, PageUp and PageDown move in the current list,
/// Esc goes back, Enter opens or plays the selection, Tab plays the shown
/// playlist, `/` starts a filter (Control-`/` or `/` in the search view a
/// library search), F1 a library search, F3 the artists, `r` reloads the
/// playlists, `t` changes the theme, `a` and `o` open the AirPlay and
/// add-to-playlist overlays, `h` shows the recently played tracks and F2
/// switches the layout.
pub open spec fn normal_step(a: AppView, s: SharedView, k: KeyInput) -> Step {
    let c = k.code;
    if a.show_help && c != KeyCode::Char('?') {
        quiet(AppView { show_help: false, ..a })
    } else if is_key(c, 'q', 'Q') {
        match a.view {
            ViewV::Playlists => quiet(AppView { should_quit: true, ..a }),
            _ => go_back(a),
        }
    } else if c == KeyCode::Char('?') {
        quiet(AppView { show_help: !a.show_help, ..a })
    } else if c == KeyCode::Char(' ') {
        acting(a, seq![EffectV::Status("Toggled play/pause"@), EffectV::PlayPause])
    } else if is_key(c, 'n', 'N') {
        acting(a, seq![EffectV::Status("Next track"@), EffectV::NextTrack])
    } else if is_key(c, 'p', 'P') {
        acting(a, seq![EffectV::Status("Previous track"@), EffectV::PrevTrack])
    } else if is_key(c, 's', 'S') {
        acting(a, seq![EffectV::Status("Stopped"@), EffectV::Stop])
    } else if is_key(c, 'l', 'L') {
        acting(a, seq![EffectV::ToggleLove])
    } else if is_key(c, 'x', 'X') {
        acting(a, seq![EffectV::ToggleShuffle])
    } else if c == KeyCode::Char('v') {
        acting(a, seq![EffectV::CycleRepeat])
    } else if is_key(c, '+', '=') {
        acting(a, seq![EffectV::VolumeUp])
    } else if c == KeyCode::Char('-') {
        acting(a, seq![EffectV::VolumeDown])
    } else if is_key(c, 'm', 'M') {
        acting(a, seq![EffectV::ToggleMute])
    } else if c == KeyCode::Right {
        acting(a, seq![EffectV::SeekForward])
    } else if c == KeyCode::Left {
        acting(a, seq![EffectV::SeekBack])
    } else if c == KeyCode::Down || c == KeyCode::Char('j') {
        quiet(move_down(a, s, 1))
    } else if c == KeyCode::Up || c == KeyCode::Char('k') {
        quiet(move_up(a, 1))
    } else if c == KeyCode::Char('g') {
        if active_len(a, s) > 0 {
            quiet(with_active_sel(a, Some(0)))
        } else {
            quiet(a)
        }
    } else if c == KeyCode::Char('G') {
        if active_len(a, s) > 0 {
            quiet(with_active_sel(a, Some((active_len(a, s) - 1) as usize)))
        } else {
            quiet(a)
        }
    } else if c == KeyCode::PageUp {
        quiet(move_up(a, 10))
    } else if c == KeyCode::PageDown {
        quiet(move_down(a, s, 10))
    } else if c == KeyCode::Esc {
        match a.view {
            ViewV::Playlists => quiet(a),
            _ => go_back(a),
        }
    } else if c == KeyCode::Enter {
        match a.view {
            ViewV::Playlists => act_playlists(a, s, true),
            ViewV::Tracks(pl) => act_tracks(a, s, pl),
            ViewV::GlobalSearch => act_result(a),
            ViewV::Artists => act_artists(a, s, true),
            ViewV::ArtistTracks(_) => act_artist_tracks(a, s),
            ViewV::RecentlyPlayed => act_recent(a, s),
        }
    } else if c == KeyCode::Tab {
        match a.view {
            ViewV::Tracks(pl) => acting(a, seq![EffectV::Status(msg_playing(pl)), EffectV::PlayPlaylist(pl)]),
            _ => quiet(a),
        }
    } else if c == KeyCode::Char('/') {
        if k.control || a.view is GlobalSearch {
            quiet(open_global_search(a))
        } else {
            quiet(AppView { mode: InputMode::Search, query: Seq::<char>::empty(), ..a })
        }
    } else if c == KeyCode::F(1) {
        quiet(open_global_search(a))
    } else if c == KeyCode::F(3) {
        if s.artists.len() > 0 {
            Step {
                app: AppView { view: ViewV::Artists, query: Seq::<char>::empty(), ..a },
                effects: Seq::<EffectV>::empty(),
                refresh: Refresh::Artists,
            }
        } else {
            acting(
                AppView { view: ViewV::Artists, ..a },
                seq![EffectV::Status("Loading artists..."@), EffectV::LoadArtists],
            )
        }
    } else if is_key(c, 'r', 'R') {
        acting(a, seq![EffectV::Status("Refreshing..."@), EffectV::RefreshPlaylists])
    } else if is_key(c, 't', 'T') {
        acting(
            AppView { theme_name: next_theme(a.theme_name), ..a },
            seq![
                EffectV::Status(msg_theme(next_theme(a.theme_name))),
                EffectV::SaveTheme(next_theme(a.theme_name)),
            ],
        )
    } else if is_key(c, 'a', 'A') {
        acting(AppView { airplay_sel: Some(0), show_airplay: true, ..a }, seq![EffectV::LoadAirplayDevices])
    } else if is_key(c, 'o', 'O') {
        quiet(AppView { add_sel: Some(0), show_add: true, ..a })
    } else if is_key(c, 'h', 'H') {
        quiet(AppView { view: ViewV::RecentlyPlayed, recent_sel: Some(0), ..a })
    } else if c == KeyCode::F(2) {
        acting(AppView { mini_mode: !a.mini_mode, ..a }, seq![EffectV::Status(msg_mode(!a.mini_mode))])
    } else {
        quiet(a)
    }
}

/// Any key: Control-C quits from anywhere, F2 switches the layout from
/// anywhere, an open overlay takes the key, else the input mode decides.
pub open spec fn key_step(a: AppView, s: SharedView, k: KeyInput) -> Step {
    if k.control && k.code == KeyCode::Char('c') {
        quiet(AppView { should_quit: true, ..a })
    } else if k.code == KeyCode::F(2) {
        acting(AppView { mini_mode: !a.mini_mode, ..a }, seq![EffectV::Status(msg_mode(!a.mini_mode))])
    } else if a.show_airplay {
        airplay_step(a, k)
    } else if a.show_add {
        add_step(a, s, k)
    } else if a.mode == InputMode::Search {
        search_step(a, s, k)
    } else {
        normal_step(a, s, k)
    }
}

/// The outcome of a key: the state after the step and the recomputed
/// list, with the step's effects; `None` where a list entry cannot be
/// scored against the query (see `fuzzy_fits`).
pub open spec fn key_outcome(a: AppView, s: SharedView, k: KeyInput) -> Option<(AppView, Seq<EffectV>)> {
    let st = key_step(a, s, k);
    match apply_refresh(st.app, s, st.refresh) {
        Some(a2) => Some((a2, st.effects)),
        None => None,
    }
}

} // verus!

verus! {

/// The state `a`, effects `e` and list `rf` are the outcome `s`.
pub open spec fn realizes(a: AppView, e: Seq<Effect>, rf: Refresh, s: Step) -> bool {
    a == s.app && effects_view(e) == s.effects && rf == s.refresh
}

/// A copy of a listed track.
pub fn clone_track(t: &PlaylistTrack) -> (r: PlaylistTrack)
    ensures
        track_view(r) == track_view(*t),
{
    PlaylistTrack { name: t.name.clone(), artist: t.artist.clone(), duration: t.duration, index: t.index }
}

impl App {
    /// The name of the playlist selected in the filtered playlist list.
    pub fn selected_playlist_name(&self, st: &SharedState) -> (r: Option<String>)
        ensures
            opt_view(r) == selected_playlist(self@, st@),
    {
        match self.list_selected {
            Some(sel) => {
                if sel < self.filtered_indices.len() && self.filtered_indices[sel] < st.playlists.len() {
                    let idx = self.filtered_indices[sel];
                    assert(st@.playlists[idx as int] == st.playlists@[idx as int]@);
                    Some(st.playlists[idx].clone())
                } else {
                    None
                }
            },
            None => None,
        }
    }

    /// The track selected in the filtered track list.
    pub fn selected_track(&self, st: &SharedState) -> (r: Option<PlaylistTrack>)
        ensures
            match r {
                Some(t) => selected_track(self@, st@) == Some(track_view(t)),
                None => selected_track(self@, st@) is None,
            },
    {
        match self.track_list_selected {
            Some(sel) => {
                if sel < self.filtered_track_indices.len() && self.filtered_track_indices[sel]
                    < st.playlist_tracks.len() {
                    let idx = self.filtered_track_indices[sel];
                    assert(st@.playlist_tracks[idx as int] == track_view(st.playlist_tracks@[idx as int]));
                    Some(clone_track(&st.playlist_tracks[idx]))
                } else {
                    None
                }
            },
            None => None,
        }
    }

    /// The name of the artist selected in the filtered artist list.
    pub fn selected_artist_name(&self, st: &SharedState) -> (r: Option<String>)
        ensures
            opt_view(r) == selected_artist(self@, st@),
    {
        match self.artist_list_selected {
            Some(sel) => {
                if sel < self.filtered_artist_indices.len() && self.filtered_artist_indices[sel]
                    < st.artists.len() {
                    let idx = self.filtered_artist_indices[sel];
                    assert(st@.artists[idx as int] == st.artists@[idx as int]@);
                    Some(st.artists[idx].clone())
                } else {
                    None
                }
            },
            None => None,
        }
    }

    /// The track selected in the filtered list of an artist's tracks.
    pub fn selected_artist_track(&self, st: &SharedState) -> (r: Option<PlaylistTrack>)
        ensures
            match r {
                Some(t) => selected_artist_track(self@, st@) == Some(track_view(t)),
                None => selected_artist_track(self@, st@) is None,
            },
    {
        match self.artist_track_list_selected {
            Some(sel) => {
                if sel < self.filtered_artist_track_indices.len()
                    && self.filtered_artist_track_indices[sel] < st.artist_tracks.len() {
                    let idx = self.filtered_artist_track_indices[sel];
                    assert(st@.artist_tracks[idx as int] == track_view(st.artist_tracks@[idx as int]));
                    Some(clone_track(&st.artist_tracks[idx]))
                } else {
                    None
                }
            },
            None => None,
        }
    }

    /// The selected library search result.
    pub fn selected_result(&self) -> (r: Option<PlaylistTrack>)
        ensures
            match r {
                Some(t) => selected_result(self@) == Some(track_view(t)),
                None => selected_result(self@) is None,
            },
    {
        match self.global_search_selected {
            Some(sel) => {
                if sel < self.global_search_results.len() {
                    assert(self@.gs_results[sel as int] == track_view(self.global_search_results@[sel as int]));
                    Some(clone_track(&self.global_search_results[sel]))
                } else {
                    None
                }
            },
            None => None,
        }
    }

    /// The selected recently played track.
    pub fn selected_recent(&self, st: &SharedState) -> (r: Option<(String, String)>)
        ensures
            match r {
                Some(p) => selected_recent(self@, st@) == Some((p.0@, p.1@)),
                None => selected_recent(self@, st@) is None,
            },
    {
        match self.recent_selected {
            Some(sel) => {
                if sel < st.recent_tracks.len() {
                    assert(st@.recent_tracks[sel as int] == (st.recent_tracks@[sel as int].0@, st.recent_tracks@[sel as int].1@));
                    Some((st.recent_tracks[sel].0.clone(), st.recent_tracks[sel].1.clone()))
                } else {
                    None
                }
            },
            None => None,
        }
    }

    /// The number of rows of the list the current view shows.
    pub fn active_list_len(&self, st: &SharedState) -> (r: usize)
        ensures
            r == active_len(self@, st@),
    {
        match &self.browse_view {
            BrowseView::Playlists => self.filtered_indices.len(),
            BrowseView::Tracks(_) => self.filtered_track_indices.len(),
            BrowseView::GlobalSearch => self.global_search_results.len(),
            BrowseView::Artists => self.filtered_artist_indices.len(),
            BrowseView::ArtistTracks(_) => self.filtered_artist_track_indices.len(),
            BrowseView::RecentlyPlayed => st.recent_tracks.len(),
        }
    }

    /// The selection in the list the current view shows.
    pub fn active_selected(&self) -> (r: Option<usize>)
        ensures
            r == active_sel(self@),
    {
        match &self.browse_view {
            BrowseView::Playlists => self.list_selected,
            BrowseView::Tracks(_) => self.track_list_selected,
            BrowseView::GlobalSearch => self.global_search_selected,
            BrowseView::Artists => self.artist_list_selected,
            BrowseView::ArtistTracks(_) => self.artist_track_list_selected,
            BrowseView::RecentlyPlayed => self.recent_selected,
        }
    }

    /// Sets the selection in the list the current view shows.
    pub fn set_active_selected(&mut self, v: Option<usize>)
        ensures
            final(self)@ == with_active_sel(old(self)@, v),
    {
        match &self.browse_view {
            BrowseView::Playlists => self.list_selected = v,
            BrowseView::Tracks(_) => self.track_list_selected = v,
            BrowseView::GlobalSearch => self.global_search_selected = v,
            BrowseView::Artists => self.artist_list_selected = v,
            BrowseView::ArtistTracks(_) => self.artist_track_list_selected = v,
            BrowseView::RecentlyPlayed => self.recent_selected = v,
        }
    }

    /// Moves `n` rows down the current list.
    pub fn move_active_down(&mut self, st: &SharedState, n: usize)
        ensures
            final(self)@ == move_down(old(self)@, st@, n as nat),
    {
        let len = self.active_list_len(st);
        let sel = self.active_selected();
        self.set_active_selected(select_down(sel, len, n));
    }

    /// Moves `n` rows up the current list.
    pub fn move_active_up(&mut self, n: usize)
        ensures
            final(self)@ == move_up(old(self)@, n as nat),
    {
        let sel = self.active_selected();
        self.set_active_selected(select_up(sel, n));
    }
}

} // verus!

verus! {

impl App {
    /// Opens the selected playlist (see `act_playlists`).
    fn open_selected_playlist(&mut self, st: &SharedState, clear: bool) -> (r: Vec<Effect>)
        ensures
            realizes(final(self)@, r@, Refresh::Nothing, act_playlists(old(self)@, st@, clear)),
    {
        match self.selected_playlist_name(st) {
            Some(name) => {
                let status = message("Loading tracks: ", &name);
                self.browse_view = BrowseView::Tracks(name.clone());
                self.track_list_selected = Some(0);
                if clear {
                    self.search_query = String::new();
                }
                two_effects(Effect::Status(status), Effect::LoadPlaylistTracks(name))
            },
            None => no_effects(),
        }
    }

    /// Plays the selected track of playlist `pl` (see `act_tracks`).
    fn play_selected_track(&mut self, st: &SharedState, pl: &String) -> (r: Vec<Effect>)
        ensures
            realizes(final(self)@, r@, Refresh::Nothing, act_tracks(old(self)@, st@, pl@)),
    {
        match self.selected_track(st) {
            Some(t) => {
                let status = message("Playing: ", &t.name);
                two_effects(Effect::Status(status), Effect::PlayTrackInPlaylist(pl.clone(), t.index))
            },
            None => no_effects(),
        }
    }

    /// Plays the selected search result (see `act_result`).
    fn play_selected_result(&mut self) -> (r: Vec<Effect>)
        ensures
            realizes(final(self)@, r@, Refresh::Nothing, act_result(old(self)@)),
    {
        match self.selected_result() {
            Some(t) => {
                let status = message("Playing: ", &t.name);
                two_effects(Effect::Status(status), Effect::PlayLibraryTrack(t.name, t.artist))
            },
            None => no_effects(),
        }
    }

    /// Opens the selected artist (see `act_artists`).
    fn open_selected_artist(&mut self, st: &SharedState, clear: bool) -> (r: Vec<Effect>)
        ensures
            realizes(final(self)@, r@, Refresh::Nothing, act_artists(old(self)@, st@, clear)),
    {
        match self.selected_artist_name(st) {
            Some(name) => {
                let status = message("Loading: ", &name);
                self.browse_view = BrowseView::ArtistTracks(name.clone());
                self.artist_track_list_selected = Some(0);
                if clear {
                    self.search_query = String::new();
                }
                two_effects(Effect::Status(status), Effect::LoadArtistTracks(name))
            },
            None => no_effects(),
        }
    }

    /// Plays the selected track of an artist (see `act_artist_tracks`).
    fn play_selected_artist_track(&mut self, st: &SharedState) -> (r: Vec<Effect>)
        ensures
            realizes(final(self)@, r@, Refresh::Nothing, act_artist_tracks(old(self)@, st@)),
    {
        match self.selected_artist_track(st) {
            Some(t) => {
                let status = message("Playing: ", &t.name);
                two_effects(Effect::Status(status), Effect::PlayLibraryTrack(t.name, t.artist))
            },
            None => no_effects(),
        }
    }

    /// Plays the selected recently played track (see `act_recent`).
    fn play_selected_recent(&mut self, st: &SharedState) -> (r: Vec<Effect>)
        ensures
            realizes(final(self)@, r@, Refresh::Nothing, act_recent(old(self)@, st@)),
    {
        match self.selected_recent(st) {
            Some(p) => {
                let status = message("Playing: ", &p.0);
                two_effects(Effect::Status(status), Effect::PlayLibraryTrack(p.0, p.1))
            },
            None => no_effects(),
        }
    }

    /// Handles a key while the AirPlay overlay is open (see
    /// `airplay_step`).
    pub fn handle_airplay_key(&mut self, key: KeyInput) -> (r: Vec<Effect>)
        ensures
            realizes(final(self)@, r@, Refresh::Nothing, airplay_step(old(self)@, key)),
    {
        let c = key.code;
        if c == KeyCode::Esc || c == KeyCode::Char('a') || c == KeyCode::Char('q') {
            self.show_airplay = false;
            no_effects()
        } else if c == KeyCode::Down || c == KeyCode::Char('j') {
            self.airplay_selected = select_down(self.airplay_selected, self.airplay_devices.len(), 1);
            no_effects()
        } else if c == KeyCode::Up || c == KeyCode::Char('k') {
            self.airplay_selected = select_up(self.airplay_selected, 1);
            no_effects()
        } else if c == KeyCode::Enter || c == KeyCode::Char(' ') {
            match self.airplay_selected {
                Some(sel) => {
                    if sel < self.airplay_devices.len() {
                        let name = self.airplay_devices[sel].0.clone();
                        assert(self@.devices[sel as int].0 == name@);
                        let status = message("Toggling: ", &name);
                        three_effects(
                            Effect::Status(status),
                            Effect::ToggleAirplay(name),
                            Effect::LoadAirplayDevices,
                        )
                    } else {
                        no_effects()
                    }
                },
                None => no_effects(),
            }
        } else {
            no_effects()
        }
    }

    /// Handles a key while the add-to-playlist overlay is open (see
    /// `add_step`).
    pub fn handle_add_to_playlist_key(&mut self, st: &SharedState, key: KeyInput) -> (r: Vec<Effect>)
        ensures
            realizes(final(self)@, r@, Refresh::Nothing, add_step(old(self)@, st@, key)),
    {
        let c = key.code;
        if c == KeyCode::Esc || c == KeyCode::Char('o') || c == KeyCode::Char('q') {
            self.show_add_to_playlist = false;
            no_effects()
        } else if c == KeyCode::Down || c == KeyCode::Char('j') {
            self.add_to_playlist_selected = select_down(self.add_to_playlist_selected, st.playlists.len(), 1);
            no_effects()
        } else if c == KeyCode::Up || c == KeyCode::Char('k') {
            self.add_to_playlist_selected = select_up(self.add_to_playlist_selected, 1);
            no_effects()
        } else if c == KeyCode::Enter {
            match self.add_to_playlist_selected {
                Some(sel) => {
                    if sel < st.playlists.len() {
                        let pn = st.playlists[sel].clone();
                        assert(st@.playlists[sel as int] == pn@);
                        let mut text: Vec<char> = crate::text::chars_of("Added \"");
                        crate::text::append_str(&mut text, st.track.name.as_str());
                        crate::text::append_str(&mut text, "\" to ");
                        crate::text::append_str(&mut text, pn.as_str());
                        let status = crate::text::string_of(text.as_slice());
                        self.show_add_to_playlist = false;
                        two_effects(Effect::Status(status), Effect::AddToPlaylist(pn))
                    } else {
                        no_effects()
                    }
                },
                None => no_effects(),
            }
        } else {
            no_effects()
        }
    }

    /// Handles a key while typing a library search (see
    /// `global_search_step`).
    pub fn handle_global_search_key(&mut self, key: KeyInput) -> (r: (Vec<Effect>, Refresh))
        ensures
            realizes(final(self)@, r.0@, r.1, global_search_step(old(self)@, key)),
    {
        let c = key.code;
        if c == KeyCode::Esc {
            self.input_mode = InputMode::Normal;
            if self.global_search_results.len() == 0 {
                self.browse_view = BrowseView::Playlists;
                (no_effects(), Refresh::Playlists)
            } else {
                (no_effects(), Refresh::Nothing)
            }
        } else if c == KeyCode::Enter {
            self.input_mode = InputMode::Normal;
            match self.global_search_selected {
                Some(_) => (self.play_selected_result(), Refresh::Nothing),
                None => {
                    if !self.global_search_query.as_str().is_empty() {
                        let q = self.global_search_query.clone();
                        let status = message("Searching: ", &q);
                        (two_effects(Effect::Status(status), Effect::SearchLibrary(q)), Refresh::Nothing)
                    } else {
                        (no_effects(), Refresh::Nothing)
                    }
                },
            }
        } else if c == KeyCode::Backspace {
            pop_char(&mut self.global_search_query);
            (no_effects(), Refresh::Nothing)
        } else if c == KeyCode::Down {
            self.global_search_selected = select_down(
                self.global_search_selected,
                self.global_search_results.len(),
                1,
            );
            (no_effects(), Refresh::Nothing)
        } else if c == KeyCode::Up {
            self.global_search_selected = select_up(self.global_search_selected, 1);
            (no_effects(), Refresh::Nothing)
        } else {
            match c {
                KeyCode::Char(ch) => {
                    push_char(&mut self.global_search_query, ch);
                    (no_effects(), Refresh::Nothing)
                },
                _ => (no_effects(), Refresh::Nothing),
            }
        }
    }
}

} // verus!

verus! {

impl App {
    /// Whether the library search is shown.
    fn in_global_search(&self) -> (r: bool)
        ensures
            r == (self@.view is GlobalSearch),
    {
        match &self.browse_view {
            BrowseView::GlobalSearch => true,
            _ => false,
        }
    }

    /// Plays or opens the selection on Enter while typing a filter query
    /// (see `search_open`).
    fn search_open(&mut self, st: &SharedState) -> (r: Vec<Effect>)
        ensures
            realizes(final(self)@, r@, Refresh::Nothing, search_open(old(self)@, st@)),
    {
        let pl: Option<String> = match &self.browse_view {
            BrowseView::Tracks(p) => Some(p.clone()),
            _ => None,
        };
        match pl {
            Some(p) => self.play_selected_track(st, &p),
            None => match &self.browse_view {
                BrowseView::Artists => self.open_selected_artist(st, false),
                BrowseView::ArtistTracks(_) => self.play_selected_artist_track(st),
                BrowseView::Playlists => self.open_selected_playlist(st, false),
                _ => no_effects(),
            },
        }
    }

    /// Handles a key while typing a filter query (see `search_step`).
    pub fn handle_search_key(&mut self, st: &SharedState, key: KeyInput) -> (r: (Vec<Effect>, Refresh))
        ensures
            realizes(final(self)@, r.0@, r.1, search_step(old(self)@, st@, key)),
    {
        let c = key.code;
        if self.in_global_search() {
            return self.handle_global_search_key(key);
        }
        if c == KeyCode::Esc {
            self.input_mode = InputMode::Normal;
            self.search_query = String::new();
            let rf = self.current_refresh();
            (no_effects(), rf)
        } else if c == KeyCode::Enter {
            let effects = self.search_open(st);
            self.input_mode = InputMode::Normal;
            self.search_query = String::new();
            let rf = self.current_refresh();
            (effects, rf)
        } else if c == KeyCode::Backspace {
            pop_char(&mut self.search_query);
            let rf = self.current_refresh();
            (no_effects(), rf)
        } else if c == KeyCode::Down {
            self.move_active_down(st, 1);
            (no_effects(), Refresh::Nothing)
        } else if c == KeyCode::Up {
            self.move_active_up(1);
            (no_effects(), Refresh::Nothing)
        } else {
            match c {
                KeyCode::Char(ch) => {
                    push_char(&mut self.search_query, ch);
                    let rf = self.current_refresh();
                    (no_effects(), rf)
                },
                _ => (no_effects(), Refresh::Nothing),
            }
        }
    }

    /// Goes back from the current view (see `go_back`).
    fn go_back(&mut self) -> (r: (Vec<Effect>, Refresh))
        ensures
            realizes(final(self)@, r.0@, r.1, go_back(old(self)@)),
    {
        match &self.browse_view {
            BrowseView::ArtistTracks(_) => {
                self.browse_view = BrowseView::Artists;
                self.search_query = String::new();
                (no_effects(), Refresh::Artists)
            },
            _ => {
                self.browse_view = BrowseView::Playlists;
                self.search_query = String::new();
                (no_effects(), Refresh::Playlists)
            },
        }
    }

    /// Opens the library search (see `open_global_search`).
    fn open_global_search(&mut self)
        ensures
            final(self)@ == open_global_search(old(self)@),
    {
        self.browse_view = BrowseView::GlobalSearch;
        self.input_mode = InputMode::Search;
        self.global_search_query = String::new();
        self.global_search_results = Vec::new();
        self.global_search_selected = None;
        assert(self@.gs_results =~= Seq::<TrackView>::empty());
    }

    /// Switches between the mini and the full layout.
    fn toggle_mini(&mut self) -> (r: Vec<Effect>)
        ensures
            final(self)@ == (AppView { mini_mode: !old(self)@.mini_mode, ..old(self)@ }),
            effects_view(r@) == seq![EffectV::Status(msg_mode(!old(self)@.mini_mode))],
    {
        self.mini_mode = !self.mini_mode;
        if self.mini_mode {
            one_effect(status_of("Mini mode"))
        } else {
            one_effect(status_of("Full mode"))
        }
    }

    /// Whether the help overlay is shown.
    fn is_playlists(&self) -> (r: bool)
        ensures
            r == (self@.view is Playlists),
    {
        match &self.browse_view {
            BrowseView::Playlists => true,
            _ => false,
        }
    }

    /// Handles a command key (see `normal_step`).
    pub fn handle_normal_key(&mut self, st: &SharedState, key: KeyInput) -> (r: (Vec<Effect>, Refresh))
        ensures
            realizes(final(self)@, r.0@, r.1, normal_step(old(self)@, st@, key)),
    {
        let c = key.code;
        if self.show_help && c != KeyCode::Char('?') {
            self.show_help = false;
            return (no_effects(), Refresh::Nothing);
        }
        if c == KeyCode::Char('q') || c == KeyCode::Char('Q') {
            if self.is_playlists() {
                self.should_quit = true;
                (no_effects(), Refresh::Nothing)
            } else {
                self.go_back()
            }
        } else if c == KeyCode::Char('?') {
            self.show_help = !self.show_help;
            (no_effects(), Refresh::Nothing)
        } else if c == KeyCode::Char(' ') {
            (two_effects(status_of("Toggled play/pause"), Effect::PlayPause), Refresh::Nothing)
        } else if c == KeyCode::Char('n') || c == KeyCode::Char('N') {
            (two_effects(status_of("Next track"), Effect::NextTrack), Refresh::Nothing)
        } else if c == KeyCode::Char('p') || c == KeyCode::Char('P') {
            (two_effects(status_of("Previous track"), Effect::PrevTrack), Refresh::Nothing)
        } else if c == KeyCode::Char('s') || c == KeyCode::Char('S') {
            (two_effects(status_of("Stopped"), Effect::Stop), Refresh::Nothing)
        } else if c == KeyCode::Char('l') || c == KeyCode::Char('L') {
            (one_effect(Effect::ToggleLove), Refresh::Nothing)
        } else if c == KeyCode::Char('x') || c == KeyCode::Char('X') {
            (one_effect(Effect::ToggleShuffle), Refresh::Nothing)
        } else if c == KeyCode::Char('v') {
            (one_effect(Effect::CycleRepeat), Refresh::Nothing)
        } else if c == KeyCode::Char('+') || c == KeyCode::Char('=') {
            (one_effect(Effect::VolumeUp), Refresh::Nothing)
        } else if c == KeyCode::Char('-') {
            (one_effect(Effect::VolumeDown), Refresh::Nothing)
        } else if c == KeyCode::Char('m') || c == KeyCode::Char('M') {
            (one_effect(Effect::ToggleMute), Refresh::Nothing)
        } else if c == KeyCode::Right {
            (one_effect(Effect::SeekForward), Refresh::Nothing)
        } else if c == KeyCode::Left {
            (one_effect(Effect::SeekBack), Refresh::Nothing)
        } else if c == KeyCode::Down || c == KeyCode::Char('j') {
            self.move_active_down(st, 1);
            (no_effects(), Refresh::Nothing)
        } else if c == KeyCode::Up || c == KeyCode::Char('k') {
            self.move_active_up(1);
            (no_effects(), Refresh::Nothing)
        } else if c == KeyCode::Char('g') {
            if self.active_list_len(st) > 0 {
                self.set_active_selected(Some(0));
            }
            (no_effects(), Refresh::Nothing)
        } else if c == KeyCode::Char('G') {
            let len = self.active_list_len(st);
            if len > 0 {
                self.set_active_selected(Some(len - 1));
            }
            (no_effects(), Refresh::Nothing)
        } else if c == KeyCode::PageUp {
            self.move_active_up(10);
            (no_effects(), Refresh::Nothing)
        } else if c == KeyCode::PageDown {
            self.move_active_down(st, 10);
            (no_effects(), Refresh::Nothing)
        } else if c == KeyCode::Esc {
            if self.is_playlists() {
                (no_effects(), Refresh::Nothing)
            } else {
                self.go_back()
            }
        } else if c == KeyCode::Enter {
            let pl: Option<String> = match &self.browse_view {
                BrowseView::Tracks(p) => Some(p.clone()),
                _ => None,
            };
            let effects = match pl {
                Some(p) => self.play_selected_track(st, &p),
                None => match &self.browse_view {
                    BrowseView::Playlists => self.open_selected_playlist(st, true),
                    BrowseView::GlobalSearch => self.play_selected_result(),
                    BrowseView::Artists => self.open_selected_artist(st, true),
                    BrowseView::ArtistTracks(_) => self.play_selected_artist_track(st),
                    _ => self.play_selected_recent(st),
                },
            };
            (effects, Refresh::Nothing)
        } else if c == KeyCode::Tab {
            let pl: Option<String> = match &self.browse_view {
                BrowseView::Tracks(p) => Some(p.clone()),
                _ => None,
            };
            match pl {
                Some(p) => {
                    let status = message("Playing: ", &p);
                    (two_effects(Effect::Status(status), Effect::PlayPlaylist(p)), Refresh::Nothing)
                },
                None => (no_effects(), Refresh::Nothing),
            }
        } else if c == KeyCode::Char('/') {
            if key.control || self.in_global_search() {
                self.open_global_search();
            } else {
                self.input_mode = InputMode::Search;
                self.search_query = String::new();
            }
            (no_effects(), Refresh::Nothing)
        } else if c == KeyCode::F(1) {
            self.open_global_search();
            (no_effects(), Refresh::Nothing)
        } else if c == KeyCode::F(3) {
            if st.artists.len() > 0 {
                self.browse_view = BrowseView::Artists;
                self.search_query = String::new();
                (no_effects(), Refresh::Artists)
            } else {
                self.browse_view = BrowseView::Artists;
                (two_effects(status_of("Loading artists..."), Effect::LoadArtists), Refresh::Nothing)
            }
        } else if c == KeyCode::Char('r') || c == KeyCode::Char('R') {
            (two_effects(status_of("Refreshing..."), Effect::RefreshPlaylists), Refresh::Nothing)
        } else if c == KeyCode::Char('t') || c == KeyCode::Char('T') {
            let t = self.theme_name.next();
            self.theme_name = t;
            let mut text: Vec<char> = crate::text::chars_of("Theme: ");
            crate::text::append_str(&mut text, t.label());
            let status = crate::text::string_of(text.as_slice());
            (two_effects(Effect::Status(status), Effect::SaveTheme(t)), Refresh::Nothing)
        } else if c == KeyCode::Char('a') || c == KeyCode::Char('A') {
            self.airplay_selected = Some(0);
            self.show_airplay = true;
            (one_effect(Effect::LoadAirplayDevices), Refresh::Nothing)
        } else if c == KeyCode::Char('o') || c == KeyCode::Char('O') {
            self.add_to_playlist_selected = Some(0);
            self.show_add_to_playlist = true;
            (no_effects(), Refresh::Nothing)
        } else if c == KeyCode::Char('h') || c == KeyCode::Char('H') {
            self.browse_view = BrowseView::RecentlyPlayed;
            self.recent_selected = Some(0);
            (no_effects(), Refresh::Nothing)
        } else if c == KeyCode::F(2) {
            (self.toggle_mini(), Refresh::Nothing)
        } else {
            (no_effects(), Refresh::Nothing)
        }
    }

    /// Handles a key press: Control-C quits, F2 switches the layout, an
    /// open overlay takes the key, else the input mode decides; then the
    /// list the step names is refiltered. Gives the work the key sets off,
    /// in order, or `None` — with the key's step taken but the filtered
    /// lists left as they were — where an entry cannot be scored against
    /// the query (see `fuzzy_fits`).
    pub fn handle_key(&mut self, st: &SharedState, key: KeyInput) -> (r: Option<Vec<Effect>>)
        ensures
            match key_outcome(old(self)@, st@, key) {
                Some(o) => r is Some && final(self)@ == o.0 && effects_view(r->0@) == o.1,
                None => r is None && final(self)@ == key_step(old(self)@, st@, key).app,
            },
    {
        let (effects, rf) = if key.control && key.code == KeyCode::Char('c') {
            self.should_quit = true;
            (no_effects(), Refresh::Nothing)
        } else if key.code == KeyCode::F(2) {
            (self.toggle_mini(), Refresh::Nothing)
        } else if self.show_airplay {
            (self.handle_airplay_key(key), Refresh::Nothing)
        } else if self.show_add_to_playlist {
            (self.handle_add_to_playlist_key(st, key), Refresh::Nothing)
        } else if self.input_mode == InputMode::Search {
            self.handle_search_key(st, key)
        } else {
            self.handle_normal_key(st, key)
        };
        if self.refresh(st, rf) {
            Some(effects)
        } else {
            None
        }
    }
}

} // verus!
