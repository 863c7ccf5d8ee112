use musictui::display::VolumeLevel;
use musictui::model::{App, BrowseView, InputMode, PlaylistTrack, SharedState};
use musictui::panels::{
    idle_notice, panel_notice, panel_title, repeat_badge, shuffle_badge, side_panel_lines,
    volume_badge, SideLine,
};
use musictui::player::PlayerState;
use musictui::theme::ThemeName;

fn track(name: &str, artist: &str, index: usize) -> PlaylistTrack {
    PlaylistTrack { name: name.to_string(), artist: artist.to_string(), duration: 200, index }
}

fn shelf() -> SharedState {
    let mut st = SharedState::new();
    st.playlists = vec!["Library".to_string(), "Chill Mix".to_string(), "Rock".to_string()];
    st.playlist_tracks = vec![track("Song A", "Band", 1), track("Other", "Chillers", 2)];
    st.recent_tracks = vec![("Old".to_string(), "Someone".to_string())];
    st
}

#[test]
fn titles_name_the_list_and_its_size() {
    let st = shelf();
    let mut app = App::new(ThemeName::Default, &st);
    assert_eq!(panel_title(&app, &st, true), " Library (3) ");

    app.input_mode = InputMode::Search;
    app.search_query = "ch".to_string();
    assert_eq!(panel_title(&app, &st, true), " Search: ch▏ ");
    assert_eq!(panel_title(&app, &st, false), " Search: ch  ");

    app.input_mode = InputMode::Normal;
    app.browse_view = BrowseView::Tracks("Chill Mix".to_string());
    app.filtered_track_indices = vec![0, 1];
    assert_eq!(panel_title(&app, &st, true), " Chill Mix (2) ◂ Esc ");

    app.browse_view = BrowseView::Artists;
    assert_eq!(panel_title(&app, &st, true), " Artists (0) ◂ Esc ");

    app.browse_view = BrowseView::GlobalSearch;
    app.global_search_query = "abc".to_string();
    assert_eq!(panel_title(&app, &st, true), " Library Search: abc (0) ◂ Esc ");
    app.input_mode = InputMode::Search;
    assert_eq!(panel_title(&app, &st, false), " Library Search: abc  ");

    app.input_mode = InputMode::Normal;
    app.browse_view = BrowseView::RecentlyPlayed;
    assert_eq!(panel_title(&app, &st, true), " Recently Played (1) ");
}

#[test]
fn notices_stand_in_for_empty_lists() {
    let empty = SharedState::new();
    let mut app = App::new(ThemeName::Default, &empty);
    assert_eq!(panel_notice(&app, &empty), Some("  Loading..."));

    let st = shelf();
    app.filtered_indices = vec![];
    assert_eq!(panel_notice(&app, &st), Some("  No matches"));
    app.filtered_indices = vec![0];
    assert_eq!(panel_notice(&app, &st), None);

    app.browse_view = BrowseView::Tracks("Rock".to_string());
    assert_eq!(panel_notice(&app, &empty), Some("  Loading tracks..."));
    app.browse_view = BrowseView::Artists;
    assert_eq!(panel_notice(&app, &st), Some("  Loading artists..."));
    app.browse_view = BrowseView::ArtistTracks("Band".to_string());
    assert_eq!(panel_notice(&app, &st), Some("  Loading..."));
    app.browse_view = BrowseView::GlobalSearch;
    assert_eq!(panel_notice(&app, &st), Some("  Type to search your library..."));
    app.global_search_query = "zz".to_string();
    assert_eq!(panel_notice(&app, &st), Some("  No results"));
    app.browse_view = BrowseView::RecentlyPlayed;
    assert_eq!(panel_notice(&app, &empty), Some("  No recently played tracks yet"));
    assert_eq!(panel_notice(&app, &st), None);
}

#[test]
fn idle_player_notices() {
    assert_eq!(idle_notice(PlayerState::NotRunning), Some("Music app is not running"));
    assert_eq!(idle_notice(PlayerState::Stopped), Some("Nothing playing"));
    assert_eq!(idle_notice(PlayerState::Playing), None);
    assert_eq!(idle_notice(PlayerState::Paused), None);
}

#[test]
fn setting_badges() {
    let th = ThemeName::Default.theme();
    assert_eq!(shuffle_badge(Some(true), &th), ("⇆ On ", th.green, true));
    assert_eq!(shuffle_badge(Some(false), &th), ("⇆ Off ", th.dim, false));
    assert_eq!(shuffle_badge(None, &th), ("⇆ ─ ", th.dim, false));
    assert_eq!(repeat_badge(&Some("all".to_string()), &th), ("↻ All ", th.green, true));
    assert_eq!(repeat_badge(&Some("one".to_string()), &th), ("↻ One ", th.yellow, true));
    assert_eq!(repeat_badge(&Some("off".to_string()), &th), ("↻ Off ", th.dim, false));
    assert_eq!(repeat_badge(&None, &th), ("↻ Off ", th.dim, false));
    assert_eq!(volume_badge(VolumeLevel::Muted, &th), ("🔇", th.red));
    assert_eq!(volume_badge(VolumeLevel::Low, &th), ("🔈", th.text_dim));
    assert_eq!(volume_badge(VolumeLevel::Medium, &th), ("🔉", th.accent));
    assert_eq!(volume_badge(VolumeLevel::High, &th), ("🔊", th.green));
}

#[test]
fn side_panel_lists_the_queue() {
    let mut st = SharedState::new();
    st.current_playlist = "Mix".to_string();
    st.queue = vec![
        ("A very long name".to_string(), "X".to_string()),
        ("B".to_string(), String::new()),
    ];
    assert_eq!(
        side_panel_lines(&st, 8),
        vec![
            SideLine::From("Mix".to_string()),
            SideLine::Blank,
            SideLine::Heading,
            SideLine::Entry(" 1. ".to_string(), "A v…".to_string()),
            SideLine::Artist("    X".to_string()),
            SideLine::Entry(" 2. ".to_string(), "B".to_string()),
        ]
    );
}

#[test]
fn side_panel_falls_back_to_the_next_track() {
    let mut st = SharedState::new();
    st.up_next_name = "Next".to_string();
    st.up_next_artist = "Them".to_string();
    assert_eq!(
        side_panel_lines(&st, 20),
        vec![
            SideLine::Blank,
            SideLine::Heading,
            SideLine::Entry(" 1. ".to_string(), "Next".to_string()),
            SideLine::Artist("    Them".to_string()),
        ]
    );
    let empty = SharedState::new();
    assert_eq!(side_panel_lines(&empty, 20), vec![SideLine::Blank, SideLine::Heading, SideLine::Nothing]);
}
