use vstd::prelude::*;
use crate::keys::{move_down, move_up};
use crate::model::{
    App, AppView, BrowseView, InputMode, PlaylistTrack, SharedState, SharedView, TrackView, ViewV,
    devices_view, refresh_artist_tracks, refresh_artists, refresh_playlists, refresh_tracks,
    track_views, names_fit,
};
use crate::text::{chars_of, decimal, same_chars};
use crate::theme::ThemeName;

verus! {

// ── Start-up ──────────────────────────────────────────────────────────

/// The browsing state before the first filtering: the playlists, not
/// typing, nothing selected, typed, loaded or open, in theme `t`.
pub open spec fn initial_view(t: ThemeName) -> AppView {
    AppView {
        list_sel: None,
        track_sel: None,
        view: ViewV::Playlists,
        mode: InputMode::Normal,
        query: Seq::<char>::empty(),
        filtered: Seq::<usize>::empty(),
        filtered_tracks: Seq::<usize>::empty(),
        show_help: false,
        should_quit: false,
        mini_mode: false,
        theme_name: t,
        show_airplay: false,
        devices: Seq::<(Seq<char>, bool)>::empty(),
        airplay_sel: None,
        gs_results: Seq::<TrackView>::empty(),
        gs_sel: None,
        gs_query: Seq::<char>::empty(),
        artist_sel: None,
        artist_track_sel: None,
        filtered_artists: Seq::<usize>::empty(),
        filtered_artist_tracks: Seq::<usize>::empty(),
        show_add: false,
        add_sel: None,
        recent_sel: None,
    }
}

impl App {
    /// The browsing state at start-up in theme `theme_name`, with the
    /// playlist list filtered (all playlists, the first one selected when
    /// there is one).
    pub fn new(theme_name: ThemeName, st: &SharedState) -> (r: App)
        ensures
            refresh_playlists(initial_view(theme_name), st@) is Some,
            r@ == refresh_playlists(initial_view(theme_name), st@)->0,
    {
        let mut app = App {
            list_selected: None,
            track_list_selected: None,
            browse_view: BrowseView::Playlists,
            input_mode: InputMode::Normal,
            search_query: String::new(),
            filtered_indices: Vec::new(),
            filtered_track_indices: Vec::new(),
            show_help: false,
            should_quit: false,
            mini_mode: false,
            theme_name: theme_name,
            show_airplay: false,
            airplay_devices: Vec::new(),
            airplay_selected: None,
            global_search_results: Vec::new(),
            global_search_selected: None,
            global_search_query: String::new(),
            artist_list_selected: None,
            artist_track_list_selected: None,
            filtered_artist_indices: Vec::new(),
            filtered_artist_track_indices: Vec::new(),
            show_add_to_playlist: false,
            add_to_playlist_selected: None,
            recent_selected: None,
        };
        assert(app@.devices =~= Seq::<(Seq<char>, bool)>::empty());
        assert(app@.gs_results =~= Seq::<TrackView>::empty());
        assert(app@ =~= initial_view(theme_name));
        let ok = app.update_filter(st);
        assert(ok);
        app
    }
}

// ── Finding entries by name ───────────────────────────────────────────

/// The first position from `k` on in the filtered list `f` whose track is
/// named `name`.
pub open spec fn find_track_from(f: Seq<usize>, ts: Seq<TrackView>, name: Seq<char>, k: nat) -> Option<nat>
    decreases f.len() - k,
{
    if k >= f.len() {
        None
    } else if f[k as int] < ts.len() && ts[f[k as int] as int].name == name {
        Some(k)
    } else {
        find_track_from(f, ts, name, k + 1)
    }
}

/// The first position from `k` on in the filtered list `f` whose name is
/// `name`.
pub open spec fn find_name_from(f: Seq<usize>, names: Seq<Seq<char>>, name: Seq<char>, k: nat) -> Option<nat>
    decreases f.len() - k,
{
    if k >= f.len() {
        None
    } else if f[k as int] < names.len() && names[f[k as int] as int] == name {
        Some(k)
    } else {
        find_name_from(f, names, name, k + 1)
    }
}

/// The first position in `f` whose track is named `name`.
fn position_of_track(f: &Vec<usize>, ts: &Vec<PlaylistTrack>, name: &String) -> (r: Option<usize>)
    ensures
        match r {
            Some(k) => find_track_from(f@, track_views(ts@), name@, 0) == Some(k as nat),
            None => find_track_from(f@, track_views(ts@), name@, 0) is None,
        },
{
    let target = chars_of(name.as_str());
    let mut i: usize = 0;
    while i < f.len()
        invariant
            i <= f@.len(),
            target@ == name@,
            find_track_from(f@, track_views(ts@), name@, 0) == find_track_from(f@, track_views(ts@), name@, i as nat),
        decreases f@.len() - i,
    {
        let idx = f[i];
        if idx < ts.len() {
            let n = chars_of(ts[idx].name.as_str());
            assert(track_views(ts@)[idx as int].name == ts@[idx as int].name@);
            if same_chars(n.as_slice(), target.as_slice()) {
                return Some(i);
            }
        }
        i = i + 1;
    }
    None
}

/// The first position in `f` whose name is `name`.
fn position_of_name(f: &Vec<usize>, names: &Vec<String>, name: &String) -> (r: Option<usize>)
    ensures
        match r {
            Some(k) => find_name_from(f@, crate::reply::string_views(names@), name@, 0) == Some(k as nat),
            None => find_name_from(f@, crate::reply::string_views(names@), name@, 0) is None,
        },
{
    let target = chars_of(name.as_str());
    let ghost ns = crate::reply::string_views(names@);
    let mut i: usize = 0;
    while i < f.len()
        invariant
            i <= f@.len(),
            target@ == name@,
            ns == crate::reply::string_views(names@),
            find_name_from(f@, ns, name@, 0) == find_name_from(f@, ns, name@, i as nat),
        decreases f@.len() - i,
    {
        let idx = f[i];
        if idx < names.len() {
            let n = chars_of(names[idx].as_str());
            assert(ns[idx as int] == names@[idx as int]@);
            if same_chars(n.as_slice(), target.as_slice()) {
                return Some(i);
            }
        }
        i = i + 1;
    }
    None
}

// ── Other events ──────────────────────────────────────────────────────

/// Selecting the playlist being played, if the filtered list shows it.
pub open spec fn select_current(a: AppView, s: SharedView) -> AppView {
    if s.current_playlist.len() > 0 {
        match find_name_from(a.filtered, s.playlists, s.current_playlist, 0) {
            Some(k) => AppView { list_sel: Some(k as usize), ..a },
            None => a,
        }
    } else {
        a
    }
}

/// Refiltering after new listings arrived: the list of the current view
/// is refiltered, and in the track list of the playlist being played,
/// still at its first row, the playing track is selected if shown.
pub open spec fn reload_view(a: AppView, s: SharedView) -> Option<AppView> {
    match a.view {
        ViewV::Tracks(vp) => match refresh_tracks(a, s) {
            Some(a1) => Some(
                if a1.track_sel == Some(0usize) && s.current_playlist == vp && s.track_name.len() > 0 {
                    match find_track_from(a1.filtered_tracks, s.playlist_tracks, s.track_name, 0) {
                        Some(k) => AppView { track_sel: Some(k as usize), ..a1 },
                        None => a1,
                    }
                } else {
                    a1
                },
            ),
            None => None,
        },
        ViewV::Artists => refresh_artists(a, s),
        ViewV::ArtistTracks(_) => refresh_artist_tracks(a, s),
        _ => refresh_playlists(a, s),
    }
}

/// The mouse wheel moves three rows in the current list, unless an
/// overlay or the help is open.
pub open spec fn scroll_view(a: AppView, s: SharedView, down: bool) -> AppView {
    if !a.show_airplay && !a.show_add && !a.show_help {
        if down {
            move_down(a, s, 3)
        } else {
            move_up(a, 3)
        }
    } else {
        a
    }
}

/// "Found {n} results".
pub open spec fn msg_found(n: nat) -> Seq<char> {
    "Found "@ + decimal(n) + " results"@
}

impl App {
    /// Selects the playlist being played, if the filtered list shows it
    /// (see `select_current`).
    pub fn select_current_playlist(&mut self, st: &SharedState)
        ensures
            final(self)@ == select_current(old(self)@, st@),
    {
        if !st.current_playlist.as_str().is_empty() {
            match position_of_name(&self.filtered_indices, &st.playlists, &st.current_playlist) {
                Some(k) => self.list_selected = Some(k),
                None => {},
            }
        }
    }

    /// Refilters after new listings arrived (see `reload_view`); answers
    /// `false`, changing nothing, where an entry cannot be scored.
    pub fn reload_filters(&mut self, st: &SharedState) -> (ok: bool)
        ensures
            ok == (reload_view(old(self)@, st@) is Some),
            ok ==> final(self)@ == reload_view(old(self)@, st@)->0,
            !ok ==> final(self)@ == old(self)@,
    {
        let vp: Option<String> = match &self.browse_view {
            BrowseView::Tracks(p) => Some(p.clone()),
            _ => None,
        };
        match vp {
            Some(p) => {
                if !self.update_track_filter(st) {
                    return false;
                }
                if self.track_list_selected == Some(0usize) {
                    let cp = chars_of(st.current_playlist.as_str());
                    let pv = chars_of(p.as_str());
                    if same_chars(cp.as_slice(), pv.as_slice()) && !st.track.name.as_str().is_empty() {
                        match position_of_track(&self.filtered_track_indices, &st.playlist_tracks, &st.track.name) {
                            Some(k) => self.track_list_selected = Some(k),
                            None => {},
                        }
                    }
                }
                true
            },
            None => match &self.browse_view {
                BrowseView::Artists => self.update_artist_filter(st),
                BrowseView::ArtistTracks(_) => self.update_artist_track_filter(st),
                _ => self.update_filter(st),
            },
        }
    }

    /// Moves three rows down or up the current list for the mouse wheel
    /// (see `scroll_view`).
    pub fn handle_scroll(&mut self, st: &SharedState, down: bool)
        ensures
            final(self)@ == scroll_view(old(self)@, st@, down),
    {
        if !self.show_airplay && !self.show_add_to_playlist && !self.show_help {
            if down {
                self.move_active_down(st, 3);
            } else {
                self.move_active_up(3);
            }
        }
    }

    /// Takes in the results of a library search: they replace the shown
    /// results, the first one is selected when there is one, and the status
    /// to show tells how many there are.
    pub fn finish_library_search(&mut self, results: Vec<PlaylistTrack>) -> (status: String)
        ensures
            status@ == msg_found(results@.len()),
            final(self)@ == (AppView {
                gs_results: track_views(results@),
                gs_sel: if results@.len() > 0 {
                    Some(0usize)
                } else {
                    old(self)@.gs_sel
                },
                ..old(self)@
            }),
    {
        let mut v = chars_of("Found ");
        let d = crate::text::decimal_chars(results.len() as u64);
        crate::text::append_chars(&mut v, d.as_slice());
        crate::text::append_str(&mut v, " results");
        let status = crate::text::string_of(v.as_slice());
        let n = results.len();
        self.global_search_results = results;
        if n > 0 {
            self.global_search_selected = Some(0);
        }
        status
    }

    /// Takes in a freshly read list of AirPlay devices.
    pub fn set_airplay_devices(&mut self, devices: Vec<(String, bool)>)
        ensures
            final(self)@ == (AppView { devices: devices_view(devices@), ..old(self)@ }),
    {
        self.airplay_devices = devices;
    }
}

} // verus!
