use vstd::prelude::*;
use crate::keys::{key_outcome, key_step, search_step, active_len, active_sel, move_down, move_up, msg_mode};
use crate::model::{
    AppView, EffectV, InputMode, KeyCode, KeyInput, Refresh, SharedView, ViewV, apply_refresh,
    clamp_selection, nav_down, nav_up, refresh_for_view,
};
use crate::reply::{number_text, numeric_chars};
use crate::text::{is_digit, trim};

verus! {

/// The browsing state after key `k`.
pub open spec fn next_app(a: AppView, s: SharedView, k: KeyInput) -> AppView {
    let p = key_outcome(a, s, k)->0;
    p.0
}

/// Control-C quits from any state, and does nothing else.
pub proof fn law_ctrl_c_quits(a: AppView, s: SharedView)
    ensures
        key_outcome(a, s, KeyInput { code: KeyCode::Char('c'), control: true }) == Some(
            (AppView { should_quit: true, ..a }, Seq::<EffectV>::empty()),
        ),
{
}

/// F2 switches between the mini and the full layout from any state, and
/// says which one is shown.
pub proof fn law_f2_toggles_layout(a: AppView, s: SharedView, control: bool)
    ensures
        key_outcome(a, s, KeyInput { code: KeyCode::F(2), control: control }) == Some(
            (
                AppView { mini_mode: !a.mini_mode, ..a },
                seq![EffectV::Status(msg_mode(!a.mini_mode))],
            ),
        ),
{
}

/// While filtering, typing a character and then deleting it gives the
/// query back, the state stays in typing mode on the same view, and the
/// filtered lists are those that the query itself gives.
pub proof fn law_type_then_delete(a: AppView, s: SharedView, c: char)
    requires
        a.mode == InputMode::Search,
        !(a.view is GlobalSearch),
        !a.show_airplay,
        !a.show_add,
        key_outcome(a, s, KeyInput { code: KeyCode::Char(c), control: false }) is Some,
        key_outcome(
            next_app(a, s, KeyInput { code: KeyCode::Char(c), control: false }),
            s,
            KeyInput { code: KeyCode::Backspace, control: false },
        ) is Some,
    ensures
        ({
            let a1 = next_app(a, s, KeyInput { code: KeyCode::Char(c), control: false });
            let a2 = next_app(a1, s, KeyInput { code: KeyCode::Backspace, control: false });
            a2.query == a.query && a2.mode == InputMode::Search && a2.view == a.view
        }),
        apply_refresh(a, s, refresh_for_view(a.view)) is Some,
        ({
            let a1 = next_app(a, s, KeyInput { code: KeyCode::Char(c), control: false });
            let a2 = next_app(a1, s, KeyInput { code: KeyCode::Backspace, control: false });
            let r = apply_refresh(a, s, refresh_for_view(a.view))->0;
            &&& a2.filtered == r.filtered
            &&& a2.filtered_tracks == r.filtered_tracks
            &&& a2.filtered_artists == r.filtered_artists
            &&& a2.filtered_artist_tracks == r.filtered_artist_tracks
        }),
{
    let k1 = KeyInput { code: KeyCode::Char(c), control: false };
    let k2 = KeyInput { code: KeyCode::Backspace, control: false };
    let st1 = key_step(a, s, k1);
    assert(st1.app.query == a.query.push(c));
    assert(st1.refresh == refresh_for_view(a.view));
    let a1 = next_app(a, s, k1);
    assert(a1.query == a.query.push(c));
    assert(a1.view == a.view && a1.mode == a.mode);
    assert(a1.show_airplay == a.show_airplay && a1.show_add == a.show_add);
    let st2 = key_step(a1, s, k2);
    assert(st2.app.query =~= a.query);
    let a2 = next_app(a1, s, k2);
    assert(a2.query == st2.app.query);
}

/// Moving down stays within a non-empty list and never moves up; moving
/// up never moves down and never leaves a selection below the first row.
pub proof fn law_navigation_bounds(sel: Option<usize>, len: nat, n: nat)
    requires
        len <= usize::MAX,
    ensures
        len > 0 ==> nav_down(sel, len, n) is Some && nav_down(sel, len, n)->0 < len,
        forall|x: usize| #![auto] sel == Some(x) && x < len ==> nav_down(sel, len, n)->0 >= x,
        forall|x: usize| #![auto] sel == Some(x) ==> nav_up(sel, n) is Some && nav_up(sel, n)->0 <= x,
        sel is None ==> nav_up(sel, n) is None,
{
}

/// After refiltering, the selection is on a row of the list when the list
/// has rows and is cleared when it has none; a selection that is on a row
/// stays where it is.
pub proof fn law_selection_after_filter(sel: Option<usize>, len: nat)
    ensures
        (clamp_selection(sel, len) is None) == (len == 0),
        clamp_selection(sel, len) is Some ==> clamp_selection(sel, len)->0 < len,
        forall|x: usize| #![auto] sel == Some(x) && x < len ==> clamp_selection(sel, len) == sel,
{
}

/// The list that recomputing `r` changes.
pub open spec fn refreshed_list(a: AppView, r: Refresh) -> Seq<usize> {
    match r {
        Refresh::Playlists => a.filtered,
        Refresh::Tracks => a.filtered_tracks,
        Refresh::Artists => a.filtered_artists,
        Refresh::ArtistTracks => a.filtered_artist_tracks,
        Refresh::Nothing => Seq::<usize>::empty(),
    }
}

/// The selection in the list that recomputing `r` changes.
pub open spec fn refreshed_sel(a: AppView, r: Refresh) -> Option<usize> {
    match r {
        Refresh::Playlists => a.list_sel,
        Refresh::Tracks => a.track_sel,
        Refresh::Artists => a.artist_sel,
        Refresh::ArtistTracks => a.artist_track_sel,
        Refresh::Nothing => None,
    }
}

/// After a list is refiltered (as `update_filter`, `update_track_filter`,
/// `update_artist_filter` and `update_artist_track_filter` do), its
/// selection is cleared when the list is empty, is the first row when
/// nothing was selected, and is otherwise the old row, held to the last
/// row: it is cleared exactly when the list is empty, and lies on a row
/// otherwise.
pub proof fn law_filter_selection(a: AppView, s: SharedView, r: Refresh)
    requires
        r != Refresh::Nothing,
        apply_refresh(a, s, r) is Some,
    ensures
        ({
            let b = apply_refresh(a, s, r)->0;
            let m = refreshed_list(b, r).len();
            let new = refreshed_sel(b, r);
            &&& m == 0 ==> new is None
            &&& m > 0 && refreshed_sel(a, r) is None ==> new == Some(0usize)
            &&& m > 0 && refreshed_sel(a, r) is Some ==> new == Some(
                if refreshed_sel(a, r)->0 < m - 1 {
                    refreshed_sel(a, r)->0
                } else {
                    (m - 1) as usize
                },
            )
            &&& (new is None) == (m == 0)
            &&& new is Some ==> new->0 < m
        }),
{
}

/// Number text holds only digits, points and minus signs.
pub proof fn law_number_text_chars(s: Seq<char>)
    ensures
        forall|i: int|
            0 <= i < number_text(s).len() ==> #[trigger] is_digit(number_text(s)[i]) || number_text(s)[i]
                == '.' || number_text(s)[i] == '-',
{
    let t = trim(s);
    lemma_numeric_chars(t, t.contains(',') && !t.contains('.'));
}

/// Kept number characters are digits, points and minus signs.
pub proof fn lemma_numeric_chars(s: Seq<char>, comma_is_point: bool)
    ensures
        forall|i: int|
            0 <= i < numeric_chars(s, comma_is_point).len() ==> #[trigger] is_digit(
                numeric_chars(s, comma_is_point)[i],
            ) || numeric_chars(s, comma_is_point)[i] == '.' || numeric_chars(s, comma_is_point)[i]
                == '-',
    decreases s.len(),
{
    if s.len() > 0 {
        lemma_numeric_chars(s.drop_last(), comma_is_point);
        let a = numeric_chars(s.drop_last(), comma_is_point);
        let r = numeric_chars(s, comma_is_point);
        assert forall|i: int| 0 <= i < r.len() implies #[trigger] is_digit(r[i]) || r[i] == '.' || r[i] == '-' by {
            if i < a.len() {
                assert(r[i] == a[i]);
            }
        }
    }
}

} // verus!

verus! {

/// With the help shown, any key but `?` (and the keys that act from
/// anywhere) just closes the help.
pub proof fn law_help_closes(a: AppView, s: SharedView, k: KeyInput)
    requires
        a.show_help,
        a.mode == InputMode::Normal,
        !a.show_airplay,
        !a.show_add,
        k.code != KeyCode::Char('?'),
        k.code != KeyCode::F(2),
        !(k.control && k.code == KeyCode::Char('c')),
    ensures
        key_outcome(a, s, k) == Some((AppView { show_help: false, ..a }, Seq::<EffectV>::empty())),
{
}

/// `q` on the playlist list quits.
pub proof fn law_q_quits_from_playlists(a: AppView, s: SharedView)
    requires
        a.view == ViewV::Playlists,
        a.mode == InputMode::Normal,
        !a.show_help,
        !a.show_airplay,
        !a.show_add,
    ensures
        key_outcome(a, s, KeyInput { code: KeyCode::Char('q'), control: false }) == Some(
            (AppView { should_quit: true, ..a }, Seq::<EffectV>::empty()),
        ),
{
}

/// Esc while filtering stops typing and empties the query.
pub proof fn law_escape_clears_query(a: AppView, s: SharedView)
    requires
        a.mode == InputMode::Search,
        !(a.view is GlobalSearch),
        !a.show_airplay,
        !a.show_add,
        key_outcome(a, s, KeyInput { code: KeyCode::Esc, control: false }) is Some,
    ensures
        next_app(a, s, KeyInput { code: KeyCode::Esc, control: false }).mode == InputMode::Normal,
        next_app(a, s, KeyInput { code: KeyCode::Esc, control: false }).query.len() == 0,
{
}

/// Enter on the playlist list, typing or not, opens the playlist listed at
/// the selected row of the filtered list: it shows that playlist's tracks,
/// says it is loading them, and loads them.
pub proof fn law_enter_opens_listed_playlist(a: AppView, s: SharedView, k: usize)
    requires
        a.view == ViewV::Playlists,
        !a.show_airplay,
        !a.show_add,
        a.mode == InputMode::Normal ==> !a.show_help,
        a.list_sel == Some(k),
        k < a.filtered.len(),
        a.filtered[k as int] < s.playlists.len(),
    ensures
        ({
            let name = s.playlists[a.filtered[k as int] as int];
            let o = key_outcome(a, s, KeyInput { code: KeyCode::Enter, control: false });
            &&& o matches Some(p)
            &&& p.1 == seq![
                EffectV::Status("Loading tracks: "@ + name),
                EffectV::LoadPlaylistTracks(name),
            ]
            &&& p.0.view == ViewV::Tracks(name)
        }),
{
}

/// While the AirPlay overlay is open, Space does exactly what Enter does.
pub proof fn law_airplay_space_is_enter(a: AppView, s: SharedView, control: bool)
    requires
        a.show_airplay,
    ensures
        key_outcome(a, s, KeyInput { code: KeyCode::Char(' '), control: control }) == key_outcome(
            a,
            s,
            KeyInput { code: KeyCode::Enter, control: control },
        ),
{
}

/// While the AirPlay overlay is open, Enter on a listed device switches
/// that device, says so, and reloads the device list.
pub proof fn law_airplay_enter_switches_selected(a: AppView, s: SharedView, k: usize)
    requires
        a.show_airplay,
        a.airplay_sel == Some(k),
        k < a.devices.len(),
    ensures
        key_outcome(a, s, KeyInput { code: KeyCode::Enter, control: false }) == Some(
            (
                a,
                seq![
                    EffectV::Status("Toggling: "@ + a.devices[k as int].0),
                    EffectV::ToggleAirplay(a.devices[k as int].0),
                    EffectV::LoadAirplayDevices,
                ],
            ),
        ),
{
}

} // verus!
