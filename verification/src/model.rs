use vstd::prelude::*;
use crate::fuzzy::{checked_fuzzy_score, fuzzy_fits, fuzzy_result};
use crate::player::PlayerState;
use crate::rank::{is_ranking, rank_scores, law_ranking_unique};
use crate::reply::{string_views, pair_views};
use crate::theme::ThemeName;

verus! {

// ── The data the program shows ────────────────────────────────────────

/// A track in a listing: its name, artist, length in whole seconds and the
/// position to play it by.
#[derive(Clone, Debug, PartialEq)]
pub struct PlaylistTrack {
    pub name: String,
    pub artist: String,
    pub duration: u64,
    pub index: usize,
}

/// The fields of a listed track.
pub ghost struct TrackView {
    pub name: Seq<char>,
    pub artist: Seq<char>,
    pub duration: nat,
    pub index: nat,
}

/// The fields of `t`.
pub open spec fn track_view(t: PlaylistTrack) -> TrackView {
    TrackView { name: t.name@, artist: t.artist@, duration: t.duration as nat, index: t.index as nat }
}

/// The fields of some listed tracks.
pub open spec fn track_views(v: Seq<PlaylistTrack>) -> Seq<TrackView> {
    v.map_values(|t: PlaylistTrack| track_view(t))
}

/// The current track, as far as the browsing logic reads it.
#[derive(Clone, Debug, PartialEq)]
pub struct TrackStatus {
    pub name: String,
    pub artist: String,
    pub album: String,
    pub state: PlayerState,
    pub loved: Option<bool>,
}

/// What the background refresh and the key handling share: the current
/// track, the library listings, playback settings and the status line.
#[derive(Clone, Debug)]
pub struct SharedState {
    pub track: TrackStatus,
    pub playlists: Vec<String>,
    pub playlist_tracks: Vec<PlaylistTrack>,
    pub up_next_name: String,
    pub up_next_artist: String,
    pub queue: Vec<(String, String)>,
    pub shuffle: Option<bool>,
    pub repeat_mode: Option<String>,
    pub volume: i32,
    pub current_playlist: String,
    pub pre_mute_vol: i32,
    pub status: String,
    pub dirty: bool,
    pub artists: Vec<String>,
    pub artist_tracks: Vec<PlaylistTrack>,
    pub recent_tracks: Vec<(String, String)>,
    pub last_track_name: String,
}

/// What the browsing logic reads of the shared state.
pub ghost struct SharedView {
    pub track_name: Seq<char>,
    pub playlists: Seq<Seq<char>>,
    pub playlist_tracks: Seq<TrackView>,
    pub current_playlist: Seq<char>,
    pub artists: Seq<Seq<char>>,
    pub artist_tracks: Seq<TrackView>,
    pub recent_tracks: Seq<(Seq<char>, Seq<char>)>,
}

impl SharedState {
    /// What the browsing logic reads of this state.
    pub open spec fn view(&self) -> SharedView {
        SharedView {
            track_name: self.track.name@,
            playlists: string_views(self.playlists@),
            playlist_tracks: track_views(self.playlist_tracks@),
            current_playlist: self.current_playlist@,
            artists: string_views(self.artists@),
            artist_tracks: track_views(self.artist_tracks@),
            recent_tracks: pair_views(self.recent_tracks@),
        }
    }
}

// ── Browsing state ────────────────────────────────────────────────────

/// What the main panel lists.
#[derive(Clone, Debug, PartialEq)]
pub enum BrowseView {
    Playlists,
    Tracks(String),
    GlobalSearch,
    Artists,
    ArtistTracks(String),
    RecentlyPlayed,
}

/// What the main panel lists, in spec terms.
pub ghost enum ViewV {
    Playlists,
    Tracks(Seq<char>),
    GlobalSearch,
    Artists,
    ArtistTracks(Seq<char>),
    RecentlyPlayed,
}

/// `v` in spec terms.
pub open spec fn view_v(v: BrowseView) -> ViewV {
    match v {
        BrowseView::Playlists => ViewV::Playlists,
        BrowseView::Tracks(s) => ViewV::Tracks(s@),
        BrowseView::GlobalSearch => ViewV::GlobalSearch,
        BrowseView::Artists => ViewV::Artists,
        BrowseView::ArtistTracks(s) => ViewV::ArtistTracks(s@),
        BrowseView::RecentlyPlayed => ViewV::RecentlyPlayed,
    }
}

/// Whether keys go to commands or to a search query.
#[derive(Clone, Copy, Debug, PartialEq, Eq, Structural)]
pub enum InputMode {
    Normal,
    Search,
}

/// The browsing state of the interface: which lists are shown, which
/// entries are selected, what has been typed, and which overlays are open.
/// Each `*_selected` is the highlighted row of a list, if any.
#[derive(Debug)]
pub struct App {
    pub list_selected: Option<usize>,
    pub track_list_selected: Option<usize>,
    pub browse_view: BrowseView,
    pub input_mode: InputMode,
    pub search_query: String,
    pub filtered_indices: Vec<usize>,
    pub filtered_track_indices: Vec<usize>,
    pub show_help: bool,
    pub should_quit: bool,
    pub mini_mode: bool,
    pub theme_name: ThemeName,
    pub show_airplay: bool,
    pub airplay_devices: Vec<(String, bool)>,
    pub airplay_selected: Option<usize>,
    pub global_search_results: Vec<PlaylistTrack>,
    pub global_search_selected: Option<usize>,
    pub global_search_query: String,
    pub artist_list_selected: Option<usize>,
    pub artist_track_list_selected: Option<usize>,
    pub filtered_artist_indices: Vec<usize>,
    pub filtered_artist_track_indices: Vec<usize>,
    pub show_add_to_playlist: bool,
    pub add_to_playlist_selected: Option<usize>,
    pub recent_selected: Option<usize>,
}

/// The browsing state in spec terms.
pub ghost struct AppView {
    pub list_sel: Option<usize>,
    pub track_sel: Option<usize>,
    pub view: ViewV,
    pub mode: InputMode,
    pub query: Seq<char>,
    pub filtered: Seq<usize>,
    pub filtered_tracks: Seq<usize>,
    pub show_help: bool,
    pub should_quit: bool,
    pub mini_mode: bool,
    pub theme_name: ThemeName,
    pub show_airplay: bool,
    pub devices: Seq<(Seq<char>, bool)>,
    pub airplay_sel: Option<usize>,
    pub gs_results: Seq<TrackView>,
    pub gs_sel: Option<usize>,
    pub gs_query: Seq<char>,
    pub artist_sel: Option<usize>,
    pub artist_track_sel: Option<usize>,
    pub filtered_artists: Seq<usize>,
    pub filtered_artist_tracks: Seq<usize>,
    pub show_add: bool,
    pub add_sel: Option<usize>,
    pub recent_sel: Option<usize>,
}

/// The views of some devices.
pub open spec fn devices_view(v: Seq<(String, bool)>) -> Seq<(Seq<char>, bool)> {
    v.map_values(|p: (String, bool)| (p.0@, p.1))
}

impl App {
    /// The browsing state in spec terms.
    pub open spec fn view(&self) -> AppView {
        AppView {
            list_sel: self.list_selected,
            track_sel: self.track_list_selected,
            view: view_v(self.browse_view),
            mode: self.input_mode,
            query: self.search_query@,
            filtered: self.filtered_indices@,
            filtered_tracks: self.filtered_track_indices@,
            show_help: self.show_help,
            should_quit: self.should_quit,
            mini_mode: self.mini_mode,
            theme_name: self.theme_name,
            show_airplay: self.show_airplay,
            devices: devices_view(self.airplay_devices@),
            airplay_sel: self.airplay_selected,
            gs_results: track_views(self.global_search_results@),
            gs_sel: self.global_search_selected,
            gs_query: self.global_search_query@,
            artist_sel: self.artist_list_selected,
            artist_track_sel: self.artist_track_list_selected,
            filtered_artists: self.filtered_artist_indices@,
            filtered_artist_tracks: self.filtered_artist_track_indices@,
            show_add: self.show_add_to_playlist,
            add_sel: self.add_to_playlist_selected,
            recent_sel: self.recent_selected,
        }
    }
}

// ── Filtering ─────────────────────────────────────────────────────────

/// The score of `q` against each name.
pub open spec fn name_scores(q: Seq<char>, names: Seq<Seq<char>>) -> Seq<Option<i32>> {
    Seq::new(names.len(), |i: int| fuzzy_result(q, names[i]))
}

/// Every name can be scored against `q`.
pub open spec fn names_fit(q: Seq<char>, names: Seq<Seq<char>>) -> bool {
    forall|i: int| 0 <= i < names.len() ==> #[trigger] fuzzy_fits(q, names[i])
}

/// The better of two optional scores.
pub open spec fn best_score(a: Option<i32>, b: Option<i32>) -> Option<i32> {
    match (a, b) {
        (Some(x), Some(y)) => Some(if x >= y { x } else { y }),
        (Some(x), None) => Some(x),
        (None, Some(y)) => Some(y),
        (None, None) => None,
    }
}

/// The score of `q` against each track: the better of its name's and its
/// artist's.
pub open spec fn track_scores(q: Seq<char>, ts: Seq<TrackView>) -> Seq<Option<i32>> {
    Seq::new(ts.len(), |i: int| best_score(fuzzy_result(q, ts[i].name), fuzzy_result(q, ts[i].artist)))
}

/// Every track's name and artist can be scored against `q`.
pub open spec fn tracks_fit(q: Seq<char>, ts: Seq<TrackView>) -> bool {
    forall|i: int| 0 <= i < ts.len() ==> #[trigger] track_fits(q, ts[i])
}

/// A track's name and artist can be scored against `q`.
pub open spec fn track_fits(q: Seq<char>, t: TrackView) -> bool {
    fuzzy_fits(q, t.name) && fuzzy_fits(q, t.artist)
}

/// The ranking of some scores (see `is_ranking`; there is exactly one).
pub open spec fn order_of(s: Seq<Option<i32>>) -> Seq<usize> {
    choose|r: Seq<usize>| is_ranking(s, r)
}

/// The positions `0..n`.
pub open spec fn all_positions(n: nat) -> Seq<usize> {
    Seq::new(n, |i: int| i as usize)
}

/// The entries a query keeps: all of them, in order, for an empty query;
/// else those that match, best first.
pub open spec fn filter_order(q: Seq<char>, scores: Seq<Option<i32>>) -> Seq<usize> {
    if q.len() == 0 {
        all_positions(scores.len())
    } else {
        order_of(scores)
    }
}

/// The selection kept after a list changed to `len` entries: none for an
/// empty list, the first entry when nothing was selected, the last entry
/// when the selection fell off the end.
pub open spec fn clamp_selection(sel: Option<usize>, len: nat) -> Option<usize> {
    if len == 0 {
        None
    } else {
        match sel {
            Some(s) => if s >= len {
                Some((len - 1) as usize)
            } else {
                Some(s)
            },
            None => Some(0),
        }
    }
}

/// The selection kept after a list changed to `len` entries.
pub fn clamp_selected(sel: Option<usize>, len: usize) -> (r: Option<usize>)
    ensures
        r == clamp_selection(sel, len as nat),
{
    if len == 0 {
        None
    } else {
        match sel {
            Some(s) => if s >= len {
                Some(len - 1)
            } else {
                Some(s)
            },
            None => Some(0),
        }
    }
}

/// The positions `0..n`.
fn positions(n: usize) -> (r: Vec<usize>)
    ensures
        r@ == all_positions(n as nat),
{
    let mut r: Vec<usize> = Vec::new();
    let mut i: usize = 0;
    while i < n
        invariant
            i <= n,
            r@ == all_positions(i as nat),
        decreases n - i,
    {
        r.push(i);
        assert(r@ =~= all_positions((i + 1) as nat));
        i = i + 1;
    }
    r
}

/// The ranking of scores that have one.
fn ranked(s: &Vec<Option<i32>>) -> (r: Vec<usize>)
    ensures
        r@ == order_of(s@),
        forall|k: int| 0 <= k < r@.len() ==> (#[trigger] r@[k] as int) < s@.len(),
{
    let r = rank_scores(s.as_slice());
    let _n = s.len();
    proof {
        let c = order_of(s@);
        assert(is_ranking(s@, c));
        law_ranking_unique(s@, r@, c);
    }
    r
}

/// The scores of `q` against some names, or `None` when one of them
/// cannot be scored (see `fuzzy_fits`).
fn scores_of_names(q: &String, names: &Vec<String>) -> (r: Option<Vec<Option<i32>>>)
    ensures
        match r {
            Some(s) => names_fit(q@, string_views(names@)) && s@ == name_scores(q@, string_views(names@)),
            None => !names_fit(q@, string_views(names@)),
        },
{
    let ghost ns = string_views(names@);
    let mut s: Vec<Option<i32>> = Vec::new();
    let mut i: usize = 0;
    while i < names.len()
        invariant
            i <= names@.len(),
            ns == string_views(names@),
            s@ == name_scores(q@, ns).take(i as int),
            forall|j: int| 0 <= j < i ==> #[trigger] fuzzy_fits(q@, ns[j]),
        decreases names@.len() - i,
    {
        assert(ns[i as int] == names@[i as int]@);
        match checked_fuzzy_score(q.as_str(), names[i].as_str()) {
            Some(x) => {
                s.push(x);
                assert(s@ =~= name_scores(q@, ns).take(i + 1));
            },
            None => {
                assert(!fuzzy_fits(q@, ns[i as int]));
                return None;
            },
        }
        i = i + 1;
    }
    assert(name_scores(q@, ns).take(i as int) =~= name_scores(q@, ns));
    Some(s)
}

/// The scores of `q` against some tracks, or `None` when a name or artist
/// cannot be scored.
fn scores_of_tracks(q: &String, ts: &Vec<PlaylistTrack>) -> (r: Option<Vec<Option<i32>>>)
    ensures
        match r {
            Some(s) => tracks_fit(q@, track_views(ts@)) && s@ == track_scores(q@, track_views(ts@)),
            None => !tracks_fit(q@, track_views(ts@)),
        },
{
    let ghost tv = track_views(ts@);
    let mut s: Vec<Option<i32>> = Vec::new();
    let mut i: usize = 0;
    while i < ts.len()
        invariant
            i <= ts@.len(),
            tv == track_views(ts@),
            s@ == track_scores(q@, tv).take(i as int),
            forall|j: int| 0 <= j < i ==> #[trigger] track_fits(q@, tv[j]),
        decreases ts@.len() - i,
    {
        assert(tv[i as int] == track_view(ts@[i as int]));
        let a = checked_fuzzy_score(q.as_str(), ts[i].name.as_str());
        let b = checked_fuzzy_score(q.as_str(), ts[i].artist.as_str());
        if a.is_none() || b.is_none() {
            assert(!track_fits(q@, tv[i as int]));
            return None;
        }
        let x = a.unwrap();
        let y = b.unwrap();
        let best = match (x, y) {
            (Some(u), Some(v)) => Some(if u >= v { u } else { v }),
            (Some(u), None) => Some(u),
            (None, Some(v)) => Some(v),
            (None, None) => None,
        };
        s.push(best);
        assert(track_fits(q@, tv[i as int]));
        assert(s@ =~= track_scores(q@, tv).take(i + 1));
        i = i + 1;
    }
    assert(track_scores(q@, tv).take(i as int) =~= track_scores(q@, tv));
    Some(s)
}

/// The entries of a list of names that `q` keeps, or `None` where a name
/// cannot be scored.
fn filter_names(q: &String, names: &Vec<String>) -> (r: Option<Vec<usize>>)
    ensures
        match r {
            Some(f) => (q@.len() == 0 || names_fit(q@, string_views(names@))) && f@ == filter_order(
                q@,
                name_scores(q@, string_views(names@)),
            ) && (forall|k: int| 0 <= k < f@.len() ==> (#[trigger] f@[k] as int) < names@.len()),
            None => q@.len() > 0 && !names_fit(q@, string_views(names@)),
        },
{
    if q.as_str().is_empty() {
        proof {
            assert(q@.len() == 0);
        }
        Some(positions(names.len()))
    } else {
        proof {
            assert(q@.len() > 0);
        }
        match scores_of_names(q, names) {
            Some(s) => Some(ranked(&s)),
            None => None,
        }
    }
}

/// The entries of a list of tracks that `q` keeps, or `None` where a name
/// or artist cannot be scored.
fn filter_tracks(q: &String, ts: &Vec<PlaylistTrack>) -> (r: Option<Vec<usize>>)
    ensures
        match r {
            Some(f) => (q@.len() == 0 || tracks_fit(q@, track_views(ts@))) && f@ == filter_order(
                q@,
                track_scores(q@, track_views(ts@)),
            ) && (forall|k: int| 0 <= k < f@.len() ==> (#[trigger] f@[k] as int) < ts@.len()),
            None => q@.len() > 0 && !tracks_fit(q@, track_views(ts@)),
        },
{
    if q.as_str().is_empty() {
        proof {
            assert(q@.len() == 0);
        }
        Some(positions(ts.len()))
    } else {
        proof {
            assert(q@.len() > 0);
        }
        match scores_of_tracks(q, ts) {
            Some(s) => Some(ranked(&s)),
            None => None,
        }
    }
}

} // verus!

verus! {

// ── Refreshing the filtered lists ─────────────────────────────────────

/// Which filtered list to recompute after a key.
#[derive(Clone, Copy, Debug, PartialEq, Eq, Structural)]
pub enum Refresh {
    Nothing,
    Playlists,
    Tracks,
    Artists,
    ArtistTracks,
}

/// The names of some tracks.
pub open spec fn track_names(ts: Seq<TrackView>) -> Seq<Seq<char>> {
    ts.map_values(|t: TrackView| t.name)
}

/// The playlist list filtered by the query, its selection kept in range;
/// `None` where a playlist name cannot be scored.
pub open spec fn refresh_playlists(a: AppView, s: SharedView) -> Option<AppView> {
    if a.query.len() > 0 && !names_fit(a.query, s.playlists) {
        None
    } else {
        let f = filter_order(a.query, name_scores(a.query, s.playlists));
        Some(AppView { filtered: f, list_sel: clamp_selection(a.list_sel, f.len()), ..a })
    }
}

/// The track list filtered by the query (by name or artist).
pub open spec fn refresh_tracks(a: AppView, s: SharedView) -> Option<AppView> {
    if a.query.len() > 0 && !tracks_fit(a.query, s.playlist_tracks) {
        None
    } else {
        let f = filter_order(a.query, track_scores(a.query, s.playlist_tracks));
        Some(AppView { filtered_tracks: f, track_sel: clamp_selection(a.track_sel, f.len()), ..a })
    }
}

/// The artist list filtered by the query.
pub open spec fn refresh_artists(a: AppView, s: SharedView) -> Option<AppView> {
    if a.query.len() > 0 && !names_fit(a.query, s.artists) {
        None
    } else {
        let f = filter_order(a.query, name_scores(a.query, s.artists));
        Some(AppView { filtered_artists: f, artist_sel: clamp_selection(a.artist_sel, f.len()), ..a })
    }
}

/// The artist's track list filtered by the query (by track name).
pub open spec fn refresh_artist_tracks(a: AppView, s: SharedView) -> Option<AppView> {
    let names = track_names(s.artist_tracks);
    if a.query.len() > 0 && !names_fit(a.query, names) {
        None
    } else {
        let f = filter_order(a.query, name_scores(a.query, names));
        Some(
            AppView {
                filtered_artist_tracks: f,
                artist_track_sel: clamp_selection(a.artist_track_sel, f.len()),
                ..a
            },
        )
    }
}

/// The list to recompute for the view shown.
pub open spec fn refresh_for_view(v: ViewV) -> Refresh {
    match v {
        ViewV::Playlists => Refresh::Playlists,
        ViewV::Tracks(_) => Refresh::Tracks,
        ViewV::Artists => Refresh::Artists,
        ViewV::ArtistTracks(_) => Refresh::ArtistTracks,
        _ => Refresh::Nothing,
    }
}

/// The state after recomputing the list `r`; `None` where an entry cannot
/// be scored.
pub open spec fn apply_refresh(a: AppView, s: SharedView, r: Refresh) -> Option<AppView> {
    match r {
        Refresh::Nothing => Some(a),
        Refresh::Playlists => refresh_playlists(a, s),
        Refresh::Tracks => refresh_tracks(a, s),
        Refresh::Artists => refresh_artists(a, s),
        Refresh::ArtistTracks => refresh_artist_tracks(a, s),
    }
}

/// The names of some tracks.
fn names_of_tracks(ts: &Vec<PlaylistTrack>) -> (r: Vec<String>)
    ensures
        string_views(r@) == track_names(track_views(ts@)),
        r@.len() == ts@.len(),
{
    let mut r: Vec<String> = Vec::new();
    let mut i: usize = 0;
    while i < ts.len()
        invariant
            i <= ts@.len(),
            string_views(r@) == track_names(track_views(ts@)).take(i as int),
        decreases ts@.len() - i,
    {
        let ghost before = string_views(r@);
        r.push(ts[i].name.clone());
        assert(string_views(r@) =~= before.push(ts@[i as int].name@));
        assert(string_views(r@) =~= track_names(track_views(ts@)).take(i + 1));
        i = i + 1;
    }
    assert(track_names(track_views(ts@)).take(i as int) =~= track_names(track_views(ts@)));
    r
}

impl App {
    /// Filters the playlist list by the search query: all playlists in
    /// order for an empty query, else the matching ones best first; the
    /// selection is kept in range. Answers `false`, changing nothing, where
    /// a name cannot be scored (see `fuzzy_fits`).
    pub fn update_filter(&mut self, st: &SharedState) -> (ok: bool)
        ensures
            ok == (refresh_playlists(old(self)@, st@) is Some),
            ok ==> final(self)@ == refresh_playlists(old(self)@, st@)->0,
            ok ==> forall|k: int|
                0 <= k < final(self).filtered_indices@.len() ==> (#[trigger] final(self).filtered_indices@[k] as int)
                    < st.playlists@.len(),
            !ok ==> final(self)@ == old(self)@,
    {
        match filter_names(&self.search_query, &st.playlists) {
            Some(f) => {
                let n = f.len();
                self.filtered_indices = f;
                self.list_selected = clamp_selected(self.list_selected, n);
                true
            },
            None => false,
        }
    }

    /// Filters the track list by the search query, matching names and
    /// artists; as `update_filter` otherwise.
    pub fn update_track_filter(&mut self, st: &SharedState) -> (ok: bool)
        ensures
            ok == (refresh_tracks(old(self)@, st@) is Some),
            ok ==> final(self)@ == refresh_tracks(old(self)@, st@)->0,
            ok ==> forall|k: int|
                0 <= k < final(self).filtered_track_indices@.len() ==> (
                #[trigger] final(self).filtered_track_indices@[k] as int) < st.playlist_tracks@.len(),
            !ok ==> final(self)@ == old(self)@,
    {
        match filter_tracks(&self.search_query, &st.playlist_tracks) {
            Some(f) => {
                let n = f.len();
                self.filtered_track_indices = f;
                self.track_list_selected = clamp_selected(self.track_list_selected, n);
                true
            },
            None => false,
        }
    }

    /// Filters the artist list by the search query; as `update_filter`
    /// otherwise.
    pub fn update_artist_filter(&mut self, st: &SharedState) -> (ok: bool)
        ensures
            ok == (refresh_artists(old(self)@, st@) is Some),
            ok ==> final(self)@ == refresh_artists(old(self)@, st@)->0,
            ok ==> forall|k: int|
                0 <= k < final(self).filtered_artist_indices@.len() ==> (
                #[trigger] final(self).filtered_artist_indices@[k] as int) < st.artists@.len(),
            !ok ==> final(self)@ == old(self)@,
    {
        match filter_names(&self.search_query, &st.artists) {
            Some(f) => {
                let n = f.len();
                self.filtered_artist_indices = f;
                self.artist_list_selected = clamp_selected(self.artist_list_selected, n);
                true
            },
            None => false,
        }
    }

    /// Filters the artist's track list by the search query, matching track
    /// names; as `update_filter` otherwise.
    pub fn update_artist_track_filter(&mut self, st: &SharedState) -> (ok: bool)
        ensures
            ok == (refresh_artist_tracks(old(self)@, st@) is Some),
            ok ==> final(self)@ == refresh_artist_tracks(old(self)@, st@)->0,
            ok ==> forall|k: int|
                0 <= k < final(self).filtered_artist_track_indices@.len() ==> (
                #[trigger] final(self).filtered_artist_track_indices@[k] as int) < st.artist_tracks@.len(),
            !ok ==> final(self)@ == old(self)@,
    {
        let names = names_of_tracks(&st.artist_tracks);
        match filter_names(&self.search_query, &names) {
            Some(f) => {
                let n = f.len();
                self.filtered_artist_track_indices = f;
                self.artist_track_list_selected = clamp_selected(self.artist_track_list_selected, n);
                true
            },
            None => false,
        }
    }

    /// Recomputes the list `r`.
    pub fn refresh(&mut self, st: &SharedState, r: Refresh) -> (ok: bool)
        ensures
            ok == (apply_refresh(old(self)@, st@, r) is Some),
            ok ==> final(self)@ == apply_refresh(old(self)@, st@, r)->0,
            !ok ==> final(self)@ == old(self)@,
    {
        match r {
            Refresh::Nothing => true,
            Refresh::Playlists => self.update_filter(st),
            Refresh::Tracks => self.update_track_filter(st),
            Refresh::Artists => self.update_artist_filter(st),
            Refresh::ArtistTracks => self.update_artist_track_filter(st),
        }
    }

    /// Which list the current view filters.
    pub fn current_refresh(&self) -> (r: Refresh)
        ensures
            r == refresh_for_view(self@.view),
    {
        match &self.browse_view {
            BrowseView::Playlists => Refresh::Playlists,
            BrowseView::Tracks(_) => Refresh::Tracks,
            BrowseView::Artists => Refresh::Artists,
            BrowseView::ArtistTracks(_) => Refresh::ArtistTracks,
            _ => Refresh::Nothing,
        }
    }

    /// Recomputes the list of the current view: playlists, tracks, artists
    /// or an artist's tracks; the search results and the recently played
    /// list are not filtered.
    pub fn update_current_filter(&mut self, st: &SharedState) -> (ok: bool)
        ensures
            ok == (apply_refresh(old(self)@, st@, refresh_for_view(old(self)@.view)) is Some),
            ok ==> final(self)@ == apply_refresh(old(self)@, st@, refresh_for_view(old(self)@.view))->0,
            !ok ==> final(self)@ == old(self)@,
    {
        let r = self.current_refresh();
        self.refresh(st, r)
    }
}

} // verus!

verus! {

// ── Keys and what they set off ────────────────────────────────────────

/// A key, as the interface tells keys apart.
#[derive(Clone, Copy, Debug, PartialEq, Eq, Structural)]
pub enum KeyCode {
    Char(char),
    Enter,
    Esc,
    Backspace,
    Tab,
    Up,
    Down,
    Left,
    Right,
    PageUp,
    PageDown,
    F(u8),
    Other,
}

/// A key press: the key and whether Control was held.
#[derive(Clone, Copy, Debug, PartialEq, Eq, Structural)]
pub struct KeyInput {
    pub code: KeyCode,
    pub control: bool,
}

/// Work a key asks of the program around the browsing state, in order: a
/// new status line, a script to run in the background, a listing to load
/// into the shared state, or a setting to store.
#[derive(Clone, Debug, PartialEq)]
pub enum Effect {
    Status(String),
    PlayPause,
    NextTrack,
    PrevTrack,
    Stop,
    ToggleLove,
    ToggleShuffle,
    CycleRepeat,
    VolumeUp,
    VolumeDown,
    ToggleMute,
    SeekForward,
    SeekBack,
    LoadPlaylistTracks(String),
    LoadArtistTracks(String),
    LoadArtists,
    RefreshPlaylists,
    PlayTrackInPlaylist(String, usize),
    PlayLibraryTrack(String, String),
    PlayPlaylist(String),
    ToggleAirplay(String),
    LoadAirplayDevices,
    AddToPlaylist(String),
    SearchLibrary(String),
    SaveTheme(ThemeName),
}

/// An effect in spec terms.
pub ghost enum EffectV {
    Status(Seq<char>),
    PlayPause,
    NextTrack,
    PrevTrack,
    Stop,
    ToggleLove,
    ToggleShuffle,
    CycleRepeat,
    VolumeUp,
    VolumeDown,
    ToggleMute,
    SeekForward,
    SeekBack,
    LoadPlaylistTracks(Seq<char>),
    LoadArtistTracks(Seq<char>),
    LoadArtists,
    RefreshPlaylists,
    PlayTrackInPlaylist(Seq<char>, nat),
    PlayLibraryTrack(Seq<char>, Seq<char>),
    PlayPlaylist(Seq<char>),
    ToggleAirplay(Seq<char>),
    LoadAirplayDevices,
    AddToPlaylist(Seq<char>),
    SearchLibrary(Seq<char>),
    SaveTheme(ThemeName),
}

/// `e` in spec terms.
pub open spec fn effect_view(e: Effect) -> EffectV {
    match e {
        Effect::Status(s) => EffectV::Status(s@),
        Effect::PlayPause => EffectV::PlayPause,
        Effect::NextTrack => EffectV::NextTrack,
        Effect::PrevTrack => EffectV::PrevTrack,
        Effect::Stop => EffectV::Stop,
        Effect::ToggleLove => EffectV::ToggleLove,
        Effect::ToggleShuffle => EffectV::ToggleShuffle,
        Effect::CycleRepeat => EffectV::CycleRepeat,
        Effect::VolumeUp => EffectV::VolumeUp,
        Effect::VolumeDown => EffectV::VolumeDown,
        Effect::ToggleMute => EffectV::ToggleMute,
        Effect::SeekForward => EffectV::SeekForward,
        Effect::SeekBack => EffectV::SeekBack,
        Effect::LoadPlaylistTracks(s) => EffectV::LoadPlaylistTracks(s@),
        Effect::LoadArtistTracks(s) => EffectV::LoadArtistTracks(s@),
        Effect::LoadArtists => EffectV::LoadArtists,
        Effect::RefreshPlaylists => EffectV::RefreshPlaylists,
        Effect::PlayTrackInPlaylist(s, i) => EffectV::PlayTrackInPlaylist(s@, i as nat),
        Effect::PlayLibraryTrack(n, a) => EffectV::PlayLibraryTrack(n@, a@),
        Effect::PlayPlaylist(s) => EffectV::PlayPlaylist(s@),
        Effect::ToggleAirplay(s) => EffectV::ToggleAirplay(s@),
        Effect::LoadAirplayDevices => EffectV::LoadAirplayDevices,
        Effect::AddToPlaylist(s) => EffectV::AddToPlaylist(s@),
        Effect::SearchLibrary(s) => EffectV::SearchLibrary(s@),
        Effect::SaveTheme(t) => EffectV::SaveTheme(t),
    }
}

/// Some effects in spec terms.
pub open spec fn effects_view(v: Seq<Effect>) -> Seq<EffectV> {
    v.map_values(|e: Effect| effect_view(e))
}

/// `prefix` followed by `x`, as a status line.
pub fn message(prefix: &str, x: &String) -> (r: String)
    ensures
        r@ == prefix@ + x@,
{
    crate::text::concat2(prefix, x.as_str())
}

/// A status line effect with a fixed text.
pub(crate) fn status_of(lit: &str) -> (r: Effect)
    ensures
        effect_view(r) == EffectV::Status(lit@),
{
    Effect::Status(crate::text::text_of(lit))
}

/// One effect.
pub(crate) fn one_effect(e: Effect) -> (r: Vec<Effect>)
    ensures
        effects_view(r@) == seq![effect_view(e)],
{
    let mut r: Vec<Effect> = Vec::new();
    r.push(e);
    assert(effects_view(r@) =~= seq![effect_view(e)]);
    r
}

/// Two effects, in order.
pub(crate) fn two_effects(a: Effect, b: Effect) -> (r: Vec<Effect>)
    ensures
        effects_view(r@) == seq![effect_view(a), effect_view(b)],
{
    let mut r: Vec<Effect> = Vec::new();
    r.push(a);
    r.push(b);
    assert(effects_view(r@) =~= seq![effect_view(a), effect_view(b)]);
    r
}

/// Three effects, in order.
pub(crate) fn three_effects(a: Effect, b: Effect, c: Effect) -> (r: Vec<Effect>)
    ensures
        effects_view(r@) == seq![effect_view(a), effect_view(b), effect_view(c)],
{
    let mut r: Vec<Effect> = Vec::new();
    r.push(a);
    r.push(b);
    r.push(c);
    assert(effects_view(r@) =~= seq![effect_view(a), effect_view(b), effect_view(c)]);
    r
}

/// No effects.
pub(crate) fn no_effects() -> (r: Vec<Effect>)
    ensures
        effects_view(r@) == Seq::<EffectV>::empty(),
{
    let r: Vec<Effect> = Vec::new();
    assert(effects_view(r@) =~= Seq::<EffectV>::empty());
    r
}

// ── Moving selections ─────────────────────────────────────────────────

/// The selection `n` rows further down a list of `len` rows: from the
/// first row when nothing is selected, stopping at the last; unchanged on
/// an empty list.
pub open spec fn nav_down(sel: Option<usize>, len: nat, n: nat) -> Option<usize> {
    if len > 0 {
        let s = match sel {
            Some(x) => x as int,
            None => 0int,
        };
        Some(if s + n < len - 1 { (s + n) as usize } else { (len - 1) as usize })
    } else {
        sel
    }
}

/// The selection `n` rows further up, stopping at the first; nothing stays
/// nothing.
pub open spec fn nav_up(sel: Option<usize>, n: nat) -> Option<usize> {
    match sel {
        Some(x) => Some(if x >= n { (x - n) as usize } else { 0usize }),
        None => None,
    }
}

/// The selection `n` rows further down a list of `len` rows.
pub fn select_down(sel: Option<usize>, len: usize, n: usize) -> (r: Option<usize>)
    ensures
        r == nav_down(sel, len as nat, n as nat),
{
    if len > 0 {
        let s = match sel {
            Some(x) => x,
            None => 0,
        };
        if s < len - 1 && n < len - 1 - s {
            Some(s + n)
        } else {
            Some(len - 1)
        }
    } else {
        sel
    }
}

/// The selection `n` rows further up.
pub fn select_up(sel: Option<usize>, n: usize) -> (r: Option<usize>)
    ensures
        r == nav_up(sel, n as nat),
{
    match sel {
        Some(x) => Some(if x >= n { x - n } else { 0 }),
        None => None,
    }
}

} // verus!
