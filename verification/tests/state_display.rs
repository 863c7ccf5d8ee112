use musictui::display::{
    centered, clip, ellipsize, format_clock, listed_entries, overlay_height, row_number,
    track_line, track_rows, volume_meter, TrackLine, VolumeLevel,
};
use musictui::model::{PlaylistTrack, SharedState, TrackStatus};
use musictui::player::PlayerState;
use musictui::state::{reload_playlists_due, RECENT_LIMIT};

fn status(name: &str, artist: &str) -> TrackStatus {
    TrackStatus {
        name: name.to_string(),
        artist: artist.to_string(),
        album: "Album".to_string(),
        state: PlayerState::Playing,
        loved: Some(false),
    }
}

fn poll(st: &mut SharedState, name: &str, artist: &str) {
    st.apply_poll(
        status(name, artist),
        40,
        Some(true),
        Some("all".to_string()),
        "Mix".to_string(),
        ("Next".to_string(), "Them".to_string()),
        vec![("Q1".to_string(), "A1".to_string())],
    );
}

#[test]
fn fresh_state_is_loading() {
    let st = SharedState::new();
    assert_eq!(st.status, "Loading...");
    assert_eq!(st.volume, -1);
    assert_eq!(st.pre_mute_vol, 50);
    assert!(st.volume_unknown());
    assert!(st.playlists.is_empty());
    assert!(st.recent_tracks.is_empty());
    assert_eq!(st.track.state, PlayerState::Stopped);
}

#[test]
fn poll_replaces_track_and_settings() {
    let mut st = SharedState::new();
    poll(&mut st, "First", "Band");
    assert_eq!(st.track.name, "First");
    assert_eq!(st.volume, 40);
    assert_eq!(st.shuffle, Some(true));
    assert_eq!(st.repeat_mode, Some("all".to_string()));
    assert_eq!(st.current_playlist, "Mix");
    assert_eq!(st.up_next_name, "Next");
    assert_eq!(st.queue.len(), 1);
    // no previous track yet: nothing recently played
    assert!(st.recent_tracks.is_empty());
}

#[test]
fn track_change_records_previous_track() {
    let mut st = SharedState::new();
    poll(&mut st, "First", "Band");
    poll(&mut st, "Second", "Other");
    assert_eq!(st.recent_tracks, vec![("First".to_string(), "Band".to_string())]);
    // the same track again changes nothing
    poll(&mut st, "Second", "Other");
    assert_eq!(st.recent_tracks.len(), 1);
    poll(&mut st, "Third", "Band");
    assert_eq!(
        st.recent_tracks,
        vec![("Second".to_string(), "Other".to_string()), ("First".to_string(), "Band".to_string())]
    );
}

#[test]
fn empty_track_name_records_nothing() {
    let mut st = SharedState::new();
    poll(&mut st, "First", "Band");
    poll(&mut st, "", "");
    assert!(st.recent_tracks.is_empty());
}

#[test]
fn recent_list_keeps_fifty() {
    let mut st = SharedState::new();
    for i in 0..60 {
        poll(&mut st, &format!("Track {}", i), "Band");
    }
    assert_eq!(st.recent_tracks.len(), RECENT_LIMIT);
    assert_eq!(st.recent_tracks[0].0, "Track 58");
    assert_eq!(st.recent_tracks[49].0, "Track 9");
}

#[test]
fn previous_track_already_first_is_not_repeated() {
    let mut st = SharedState::new();
    st.recent_tracks = vec![("First".to_string(), "Band".to_string())];
    poll(&mut st, "First", "Band");
    poll(&mut st, "Second", "Band");
    assert_eq!(st.recent_tracks.len(), 1);
}

#[test]
fn volume_steps_are_clamped() {
    let mut st = SharedState::new();
    st.set_volume(97);
    assert_eq!(st.volume_up(), 100);
    assert_eq!(st.status, "Volume: 100%");
    st.set_volume(3);
    assert_eq!(st.volume_down(), 0);
    assert_eq!(st.status, "Volume: 0%");
    st.set_volume(50);
    assert_eq!(st.volume_up(), 55);
    assert_eq!(st.volume_down(), 50);
}

#[test]
fn mute_then_unmute_restores_volume() {
    let mut st = SharedState::new();
    st.set_volume(65);
    assert_eq!(st.toggle_mute(), 0);
    assert_eq!(st.status, "Muted");
    assert_eq!(st.pre_mute_vol, 65);
    assert_eq!(st.toggle_mute(), 65);
    assert_eq!(st.status, "Unmuted (65%)");
}

#[test]
fn repeat_mode_cycles() {
    let mut st = SharedState::new();
    assert_eq!(st.next_repeat_mode(), "all");
    st.apply_repeat("all");
    assert_eq!(st.status, "Repeat: all");
    assert_eq!(st.next_repeat_mode(), "one");
    st.apply_repeat("one");
    assert_eq!(st.next_repeat_mode(), "off");
    st.apply_repeat("off");
    assert_eq!(st.next_repeat_mode(), "all");
}

#[test]
fn love_and_shuffle_statuses() {
    let mut st = SharedState::new();
    st.apply_love(Some(true));
    assert_eq!(st.status, "♥ Loved");
    st.apply_love(Some(false));
    assert_eq!(st.status, "♡ Unloved");
    st.apply_love(None);
    assert_eq!(st.status, "Love toggled");
    st.apply_shuffle(Some(true));
    assert_eq!(st.status, "Shuffle on");
    st.apply_shuffle(Some(false));
    assert_eq!(st.status, "Shuffle off");
    st.apply_shuffle(None);
    assert_eq!(st.status, "Shuffle toggled");
}

#[test]
fn loading_lists_sets_status_and_dirty() {
    let mut st = SharedState::new();
    let tracks = vec![
        PlaylistTrack { name: "A".to_string(), artist: "B".to_string(), duration: 10, index: 1 },
        PlaylistTrack { name: "C".to_string(), artist: "D".to_string(), duration: 20, index: 2 },
    ];
    st.apply_playlist_tracks(&"Chill".to_string(), tracks);
    assert_eq!(st.status, "Chill — 2 tracks");
    assert!(st.take_dirty());
    assert!(!st.take_dirty());
    st.apply_artists(vec!["X".to_string(), "Y".to_string(), "Z".to_string()]);
    assert_eq!(st.status, "3 artists loaded");
    st.apply_playlists_refresh(vec!["P".to_string()]);
    assert_eq!(st.status, "Refreshed — 1 playlists");
    assert_eq!(st.playlists, vec!["P".to_string()]);
}

#[test]
fn initial_load_counts_playlists() {
    let mut st = SharedState::new();
    st.apply_initial(
        vec!["A".to_string(), "B".to_string()],
        status("Now", "Band"),
        30,
        None,
        None,
        String::new(),
        (String::new(), String::new()),
        Vec::new(),
    );
    assert_eq!(st.status, "Loaded 2 playlists");
    assert_eq!(st.last_track_name, "Now");
    assert_eq!(st.volume, 30);
}

#[test]
fn status_expires_to_ready() {
    let mut st = SharedState::new();
    st.set_status("Playing".to_string());
    st.expire_status();
    assert_eq!(st.status, "Ready");
    st.expire_status();
    assert_eq!(st.status, "Ready");
}

#[test]
fn playlists_reload_every_fifteenth_poll() {
    assert!(reload_playlists_due(0));
    assert!(!reload_playlists_due(1));
    assert!(!reload_playlists_due(14));
    assert!(reload_playlists_due(15));
    assert!(reload_playlists_due(30));
}

#[test]
fn clock_format() {
    assert_eq!(format_clock(0), "0:00");
    assert_eq!(format_clock(125), "2:05");
    assert_eq!(format_clock(3599), "59:59");
    assert_eq!(format_clock(3600), "60:00");
}

#[test]
fn ellipsize_long_names() {
    assert_eq!(ellipsize("abcdef", 4), "abc…");
    assert_eq!(ellipsize("abc", 4), "abc");
    assert_eq!(ellipsize("abcd", 4), "abcd");
    assert_eq!(ellipsize("ab", 0), "…");
}

#[test]
fn clip_names() {
    assert_eq!(clip("abcdef", 3), "abc");
    assert_eq!(clip("ab", 3), "ab");
}

#[test]
fn row_numbers() {
    assert_eq!(row_number(3), " 3. ");
    assert_eq!(row_number(12), "12. ");
    assert_eq!(row_number(100), "100. ");
}

#[test]
fn volume_meter_levels() {
    assert_eq!(volume_meter(55), (5, 5, VolumeLevel::Medium));
    assert_eq!(volume_meter(0), (0, 10, VolumeLevel::Muted));
    assert_eq!(volume_meter(29), (2, 8, VolumeLevel::Low));
    assert_eq!(volume_meter(100), (10, 0, VolumeLevel::High));
}

#[test]
fn overlays_are_centered() {
    assert_eq!(centered(80, 24, 52, 30), (14, 2, 52, 20));
    assert_eq!(centered(10, 10, 52, 30), (2, 2, 6, 6));
    assert_eq!(centered(2, 2, 5, 5), (1, 1, 0, 0));
    assert_eq!(overlay_height(3, 24, 10), 10);
    assert_eq!(overlay_height(30, 24, 10), 20);
    assert_eq!(overlay_height(12, 24, 10), 16);
}

#[test]
fn track_rows_fit_and_mark_the_current_track() {
    let t = PlaylistTrack {
        name: "A very long song name".to_string(),
        artist: "Band".to_string(),
        duration: 125,
        index: 1,
    };
    let now = status("A very long song name", "Band");
    let line = track_line(&t, &now, 30, true);
    assert!(line.playing);
    assert_eq!(line.duration, "2:05");
    assert_eq!(line.name, "A very long …");

    let other = status("", "");
    let line = track_line(&t, &other, 30, true);
    assert!(!line.playing);
    assert_eq!(line.name, "A very long so…");

    let line = track_line(&t, &other, 30, false);
    assert_eq!(line.name, "A very long song name");

    // same name by another artist is not the current track
    let line = track_line(&t, &status("A very long song name", "Others"), 30, true);
    assert!(!line.playing);
}

#[test]
fn listed_entries_follow_the_filter() {
    let names = vec!["Library".to_string(), "Chill".to_string(), "Rock".to_string()];
    let rows = listed_entries(&vec![2, 0, 7], &names, &"Rock".to_string());
    assert_eq!(rows, vec![("Rock".to_string(), true), ("Library".to_string(), false)]);
    let rows = listed_entries(&vec![1], &names, &String::new());
    assert_eq!(rows, vec![("Chill".to_string(), false)]);
}

#[test]
fn track_rows_follow_the_filter() {
    let tracks = vec![
        PlaylistTrack { name: "Song A".to_string(), artist: "Band".to_string(), duration: 125, index: 1 },
        PlaylistTrack { name: "Other".to_string(), artist: "X".to_string(), duration: 60, index: 2 },
    ];
    let rows = track_rows(&vec![1, 5, 0], &tracks, &status("Song A", "Band"), 40, true);
    assert_eq!(
        rows,
        vec![
            TrackLine {
                playing: false,
                name: "Other".to_string(),
                artist: "X".to_string(),
                duration: "1:00".to_string(),
            },
            TrackLine {
                playing: true,
                name: "Song A".to_string(),
                artist: "Band".to_string(),
                duration: "2:05".to_string(),
            },
        ]
    );
    // a narrow row cuts the name
    let rows = track_rows(&vec![0], &tracks, &status("", ""), 14, false);
    assert_eq!(rows[0].name, "Song…");
    assert!(track_rows(&vec![], &tracks, &status("", ""), 40, true).is_empty());
}
