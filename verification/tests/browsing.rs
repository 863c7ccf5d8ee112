use musictui::model::{
    App, BrowseView, Effect, InputMode, KeyCode, KeyInput, PlaylistTrack, SharedState,
};
use musictui::theme::ThemeName;

fn key(c: KeyCode) -> KeyInput {
    KeyInput { code: c, control: false }
}

fn ch(c: char) -> KeyInput {
    key(KeyCode::Char(c))
}

fn track(name: &str, artist: &str, index: usize) -> PlaylistTrack {
    PlaylistTrack { name: name.to_string(), artist: artist.to_string(), duration: 200, index }
}

fn library() -> SharedState {
    let mut st = SharedState::new();
    st.playlists = vec!["Library".to_string(), "Chill Mix".to_string(), "Rock".to_string()];
    st.playlist_tracks = vec![track("Song A", "Band", 1), track("Other", "Chillers", 2)];
    st.artists = vec!["Band".to_string(), "Chillers".to_string()];
    st.artist_tracks = vec![track("Deep", "Band", 4), track("Cut", "Band", 9)];
    st.recent_tracks = vec![("Old".to_string(), "Someone".to_string())];
    st.track.name = "Song A".to_string();
    st
}

#[test]
fn new_app_lists_all_playlists() {
    let st = library();
    let app = App::new(ThemeName::Nord, &st);
    assert_eq!(app.filtered_indices, vec![0, 1, 2]);
    assert_eq!(app.list_selected, Some(0));
    assert_eq!(app.browse_view, BrowseView::Playlists);
    assert_eq!(app.theme_name, ThemeName::Nord);
    let empty = SharedState::new();
    let app2 = App::new(ThemeName::Default, &empty);
    assert_eq!(app2.list_selected, None);
}

#[test]
fn ctrl_c_quits_anywhere() {
    let st = library();
    let mut app = App::new(ThemeName::Default, &st);
    app.show_airplay = true;
    let e = app.handle_key(&st, KeyInput { code: KeyCode::Char('c'), control: true }).unwrap();
    assert!(e.is_empty());
    assert!(app.should_quit);
}

#[test]
fn navigation_moves_and_stops_at_ends() {
    let st = library();
    let mut app = App::new(ThemeName::Default, &st);
    app.handle_key(&st, key(KeyCode::Down)).unwrap();
    assert_eq!(app.list_selected, Some(1));
    app.handle_key(&st, ch('j')).unwrap();
    app.handle_key(&st, ch('j')).unwrap();
    assert_eq!(app.list_selected, Some(2));
    app.handle_key(&st, ch('g')).unwrap();
    assert_eq!(app.list_selected, Some(0));
    app.handle_key(&st, ch('k')).unwrap();
    assert_eq!(app.list_selected, Some(0));
    app.handle_key(&st, ch('G')).unwrap();
    assert_eq!(app.list_selected, Some(2));
    app.handle_key(&st, key(KeyCode::PageUp)).unwrap();
    assert_eq!(app.list_selected, Some(0));
    app.handle_key(&st, key(KeyCode::PageDown)).unwrap();
    assert_eq!(app.list_selected, Some(2));
    app.handle_scroll(&st, false);
    assert_eq!(app.list_selected, Some(0));
    app.handle_scroll(&st, true);
    assert_eq!(app.list_selected, Some(2));
}

#[test]
fn filtering_playlists_by_typing() {
    let st = library();
    let mut app = App::new(ThemeName::Default, &st);
    app.handle_key(&st, ch('/')).unwrap();
    assert_eq!(app.input_mode, InputMode::Search);
    app.handle_key(&st, ch('c')).unwrap();
    app.handle_key(&st, ch('h')).unwrap();
    assert_eq!(app.search_query, "ch");
    assert_eq!(app.filtered_indices, vec![1]);
    assert_eq!(app.list_selected, Some(0));
    app.handle_key(&st, key(KeyCode::Backspace)).unwrap();
    assert_eq!(app.search_query, "c");
    app.handle_key(&st, key(KeyCode::Esc)).unwrap();
    assert_eq!(app.input_mode, InputMode::Normal);
    assert_eq!(app.search_query, "");
    assert_eq!(app.filtered_indices, vec![0, 1, 2]);
}

#[test]
fn opening_a_playlist_and_playing_a_track() {
    let st = library();
    let mut app = App::new(ThemeName::Default, &st);
    app.handle_key(&st, key(KeyCode::Down)).unwrap();
    let e = app.handle_key(&st, key(KeyCode::Enter)).unwrap();
    assert_eq!(
        e,
        vec![
            Effect::Status("Loading tracks: Chill Mix".to_string()),
            Effect::LoadPlaylistTracks("Chill Mix".to_string())
        ]
    );
    assert_eq!(app.browse_view, BrowseView::Tracks("Chill Mix".to_string()));
    assert_eq!(app.track_list_selected, Some(0));
    // The track list is refiltered when the tracks arrive.
    assert!(app.reload_filters(&st));
    assert_eq!(app.filtered_track_indices, vec![0, 1]);
    app.handle_key(&st, key(KeyCode::Down)).unwrap();
    let e = app.handle_key(&st, key(KeyCode::Enter)).unwrap();
    assert_eq!(
        e,
        vec![
            Effect::Status("Playing: Other".to_string()),
            Effect::PlayTrackInPlaylist("Chill Mix".to_string(), 2)
        ]
    );
    let e = app.handle_key(&st, key(KeyCode::Tab)).unwrap();
    assert_eq!(e[1], Effect::PlayPlaylist("Chill Mix".to_string()));
    app.handle_key(&st, ch('q')).unwrap();
    assert_eq!(app.browse_view, BrowseView::Playlists);
    app.handle_key(&st, ch('q')).unwrap();
    assert!(app.should_quit);
}

#[test]
fn track_filter_matches_artist_too() {
    let st = library();
    let mut app = App::new(ThemeName::Default, &st);
    app.browse_view = BrowseView::Tracks("Library".to_string());
    app.search_query = "chill".to_string();
    assert!(app.update_track_filter(&st));
    assert_eq!(app.filtered_track_indices, vec![1]);
}

#[test]
fn reload_selects_the_playing_track() {
    let mut st = library();
    st.current_playlist = "Library".to_string();
    st.track.name = "Other".to_string();
    let mut app = App::new(ThemeName::Default, &st);
    app.browse_view = BrowseView::Tracks("Library".to_string());
    app.track_list_selected = Some(0);
    assert!(app.reload_filters(&st));
    assert_eq!(app.track_list_selected, Some(1));
}

#[test]
fn select_current_playlist_on_start() {
    let mut st = library();
    st.current_playlist = "Rock".to_string();
    let mut app = App::new(ThemeName::Default, &st);
    app.select_current_playlist(&st);
    assert_eq!(app.list_selected, Some(2));
}

#[test]
fn playback_keys_report_work() {
    let st = library();
    let mut app = App::new(ThemeName::Default, &st);
    assert_eq!(
        app.handle_key(&st, ch(' ')).unwrap(),
        vec![Effect::Status("Toggled play/pause".to_string()), Effect::PlayPause]
    );
    assert_eq!(app.handle_key(&st, ch('N')).unwrap()[1], Effect::NextTrack);
    assert_eq!(app.handle_key(&st, ch('p')).unwrap()[1], Effect::PrevTrack);
    assert_eq!(app.handle_key(&st, ch('s')).unwrap()[1], Effect::Stop);
    assert_eq!(app.handle_key(&st, ch('l')).unwrap(), vec![Effect::ToggleLove]);
    assert_eq!(app.handle_key(&st, ch('x')).unwrap(), vec![Effect::ToggleShuffle]);
    assert_eq!(app.handle_key(&st, ch('v')).unwrap(), vec![Effect::CycleRepeat]);
    assert_eq!(app.handle_key(&st, ch('=')).unwrap(), vec![Effect::VolumeUp]);
    assert_eq!(app.handle_key(&st, ch('-')).unwrap(), vec![Effect::VolumeDown]);
    assert_eq!(app.handle_key(&st, ch('m')).unwrap(), vec![Effect::ToggleMute]);
    assert_eq!(app.handle_key(&st, key(KeyCode::Right)).unwrap(), vec![Effect::SeekForward]);
    assert_eq!(app.handle_key(&st, key(KeyCode::Left)).unwrap(), vec![Effect::SeekBack]);
    assert_eq!(
        app.handle_key(&st, ch('r')).unwrap(),
        vec![Effect::Status("Refreshing...".to_string()), Effect::RefreshPlaylists]
    );
}

#[test]
fn theme_key_cycles_and_saves() {
    let st = library();
    let mut app = App::new(ThemeName::Gruvbox, &st);
    let e = app.handle_key(&st, ch('t')).unwrap();
    assert_eq!(app.theme_name, ThemeName::Default);
    assert_eq!(
        e,
        vec![Effect::Status("Theme: Default".to_string()), Effect::SaveTheme(ThemeName::Default)]
    );
}

#[test]
fn help_and_layout_keys() {
    let st = library();
    let mut app = App::new(ThemeName::Default, &st);
    app.handle_key(&st, ch('?')).unwrap();
    assert!(app.show_help);
    app.handle_key(&st, ch('j')).unwrap();
    assert!(!app.show_help);
    assert_eq!(app.list_selected, Some(0));
    let e = app.handle_key(&st, key(KeyCode::F(2))).unwrap();
    assert!(app.mini_mode);
    assert_eq!(e, vec![Effect::Status("Mini mode".to_string())]);
    let e = app.handle_key(&st, key(KeyCode::F(2))).unwrap();
    assert_eq!(e, vec![Effect::Status("Full mode".to_string())]);
}

#[test]
fn artists_browsing() {
    let st = library();
    let mut app = App::new(ThemeName::Default, &st);
    app.handle_key(&st, key(KeyCode::F(3))).unwrap();
    assert_eq!(app.browse_view, BrowseView::Artists);
    assert_eq!(app.filtered_artist_indices, vec![0, 1]);
    let e = app.handle_key(&st, key(KeyCode::Enter)).unwrap();
    assert_eq!(e[1], Effect::LoadArtistTracks("Band".to_string()));
    assert_eq!(app.browse_view, BrowseView::ArtistTracks("Band".to_string()));
    assert!(app.reload_filters(&st));
    app.handle_key(&st, key(KeyCode::Down)).unwrap();
    let e = app.handle_key(&st, key(KeyCode::Enter)).unwrap();
    assert_eq!(e[1], Effect::PlayLibraryTrack("Cut".to_string(), "Band".to_string()));
    app.handle_key(&st, key(KeyCode::Esc)).unwrap();
    assert_eq!(app.browse_view, BrowseView::Artists);
    let empty = SharedState::new();
    let mut fresh = App::new(ThemeName::Default, &empty);
    let e = fresh.handle_key(&empty, key(KeyCode::F(3))).unwrap();
    assert_eq!(e, vec![Effect::Status("Loading artists...".to_string()), Effect::LoadArtists]);
}

#[test]
fn global_search_flow() {
    let st = library();
    let mut app = App::new(ThemeName::Default, &st);
    app.handle_key(&st, key(KeyCode::F(1))).unwrap();
    assert_eq!(app.browse_view, BrowseView::GlobalSearch);
    app.handle_key(&st, ch('b')).unwrap();
    app.handle_key(&st, ch('x')).unwrap();
    app.handle_key(&st, key(KeyCode::Backspace)).unwrap();
    assert_eq!(app.global_search_query, "b");
    let e = app.handle_key(&st, key(KeyCode::Enter)).unwrap();
    assert_eq!(
        e,
        vec![Effect::Status("Searching: b".to_string()), Effect::SearchLibrary("b".to_string())]
    );
    let status = app.finish_library_search(vec![track("Beat", "Drums", 3)]);
    assert_eq!(status, "Found 1 results");
    assert_eq!(app.global_search_selected, Some(0));
    let e = app.handle_key(&st, key(KeyCode::Enter)).unwrap();
    assert_eq!(e[1], Effect::PlayLibraryTrack("Beat".to_string(), "Drums".to_string()));
    app.handle_key(&st, ch('/')).unwrap();
    assert_eq!(app.input_mode, InputMode::Search);
    assert!(app.global_search_results.is_empty());
    app.handle_key(&st, key(KeyCode::Esc)).unwrap();
    assert_eq!(app.browse_view, BrowseView::Playlists);
}

#[test]
fn airplay_overlay() {
    let st = library();
    let mut app = App::new(ThemeName::Default, &st);
    let e = app.handle_key(&st, ch('a')).unwrap();
    assert_eq!(e, vec![Effect::LoadAirplayDevices]);
    assert!(app.show_airplay);
    app.set_airplay_devices(vec![("Computer".to_string(), true), ("Kitchen".to_string(), false)]);
    app.handle_key(&st, key(KeyCode::Down)).unwrap();
    let e = app.handle_key(&st, key(KeyCode::Enter)).unwrap();
    assert_eq!(
        e,
        vec![
            Effect::Status("Toggling: Kitchen".to_string()),
            Effect::ToggleAirplay("Kitchen".to_string()),
            Effect::LoadAirplayDevices
        ]
    );
    app.handle_key(&st, ch('q')).unwrap();
    assert!(!app.show_airplay);
    assert!(!app.should_quit);
}

#[test]
fn add_to_playlist_overlay() {
    let st = library();
    let mut app = App::new(ThemeName::Default, &st);
    app.handle_key(&st, ch('o')).unwrap();
    assert!(app.show_add_to_playlist);
    app.handle_key(&st, ch('j')).unwrap();
    app.handle_key(&st, ch('j')).unwrap();
    app.handle_key(&st, ch('j')).unwrap();
    assert_eq!(app.add_to_playlist_selected, Some(2));
    let e = app.handle_key(&st, key(KeyCode::Enter)).unwrap();
    assert_eq!(
        e,
        vec![
            Effect::Status("Added \"Song A\" to Rock".to_string()),
            Effect::AddToPlaylist("Rock".to_string())
        ]
    );
    assert!(!app.show_add_to_playlist);
}

#[test]
fn recently_played_view() {
    let st = library();
    let mut app = App::new(ThemeName::Default, &st);
    app.handle_key(&st, ch('h')).unwrap();
    assert_eq!(app.browse_view, BrowseView::RecentlyPlayed);
    let e = app.handle_key(&st, key(KeyCode::Enter)).unwrap();
    assert_eq!(
        e,
        vec![
            Effect::Status("Playing: Old".to_string()),
            Effect::PlayLibraryTrack("Old".to_string(), "Someone".to_string())
        ]
    );
}

#[test]
fn unscorable_entry_is_reported() {
    let mut st = library();
    st.playlists.push("İ".to_string());
    let mut app = App::new(ThemeName::Default, &st);
    app.handle_key(&st, ch('/')).unwrap();
    app.handle_key(&st, ch('i')).unwrap();
    let before = app.filtered_indices.clone();
    assert!(app.handle_key(&st, ch('\u{307}')).is_none());
    assert_eq!(app.filtered_indices, before);
}

#[test]
fn current_filter_follows_the_view() {
    let st = library();
    let mut app = App::new(ThemeName::Default, &st);
    app.search_query = "chill".to_string();
    assert!(app.update_current_filter(&st));
    assert_eq!(app.filtered_indices, vec![1]);

    app.browse_view = BrowseView::Tracks("Chill Mix".to_string());
    app.search_query = "band".to_string();
    assert!(app.update_current_filter(&st));
    assert_eq!(app.filtered_track_indices, vec![0]);
}

#[test]
fn typing_then_deleting_restores_the_filtered_list() {
    let st = library();
    let mut app = App::new(ThemeName::Default, &st);
    app.input_mode = InputMode::Search;
    app.search_query = "r".to_string();
    assert!(app.update_filter(&st));
    let before = app.filtered_indices.clone();
    app.handle_key(&st, ch('o')).unwrap();
    assert_ne!(app.filtered_indices, before);
    app.handle_key(&st, key(KeyCode::Backspace)).unwrap();
    assert_eq!(app.search_query, "r");
    assert_eq!(app.filtered_indices, before);
    assert_eq!(app.input_mode, InputMode::Search);
}

#[test]
fn refiltering_holds_the_selection_to_the_list() {
    let st = library();
    let mut app = App::new(ThemeName::Default, &st);
    app.list_selected = Some(2);
    app.search_query = "chill".to_string();
    assert!(app.update_filter(&st));
    assert_eq!(app.filtered_indices, vec![1]);
    assert_eq!(app.list_selected, Some(0));
    app.search_query = "zzz".to_string();
    assert!(app.update_filter(&st));
    assert_eq!(app.list_selected, None);
    app.search_query = String::new();
    assert!(app.update_filter(&st));
    assert_eq!(app.list_selected, Some(0));
}
