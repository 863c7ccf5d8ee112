use musictui::player::PlayerState;
use musictui::reply::{
    fetch_airplay_devices, fetch_artist_tracks, fetch_artists, fetch_current_playlist,
    fetch_library_search, fetch_now_playing, fetch_playlist_tracks, fetch_playlists,
    fetch_queue, fetch_repeat, fetch_shuffle, fetch_up_next, fetch_volume, number_string,
    repeat_mode_from_word, script_reply, up_next_from_window, TrackIndex, TrackRow,
};

fn ok(s: &str) -> Result<String, String> {
    Ok(s.to_string())
}

fn failed() -> Result<String, String> {
    Err("execution error".to_string())
}

#[test]
fn reply_trims_output() {
    assert_eq!(script_reply(true, b"  hello\n", b"x"), Ok("hello".to_string()));
    assert_eq!(script_reply(false, b"out", b" boom \n"), Err("boom".to_string()));
    assert_eq!(script_reply(true, b"a\xffb", b""), Ok("a\u{fffd}b".to_string()));
}

#[test]
fn numbers_are_cleaned() {
    assert_eq!(number_string(" 50 "), "50");
    assert_eq!(number_string("1,5"), "1.5");
    assert_eq!(number_string("1,234.5"), "1234.5");
    assert_eq!(number_string("-3.25 s"), "-3.25");
    assert_eq!(number_string("abc"), "");
    assert_eq!(number_string(""), "");
}

#[test]
fn shuffle_and_repeat_words() {
    assert_eq!(fetch_shuffle(&ok("true")), Some(true));
    assert_eq!(fetch_shuffle(&ok("false")), Some(false));
    assert_eq!(fetch_shuffle(&ok("UNKNOWN")), None);
    assert_eq!(fetch_shuffle(&failed()), None);
    assert_eq!(fetch_repeat(&ok(" OFF ")), Some("off".to_string()));
    assert_eq!(fetch_repeat(&ok("none")), Some("off".to_string()));
    assert_eq!(fetch_repeat(&ok("One")), Some("one".to_string()));
    assert_eq!(fetch_repeat(&ok("all")), Some("all".to_string()));
    assert_eq!(fetch_repeat(&ok("UNKNOWN")), None);
    assert_eq!(fetch_repeat(&failed()), None);
}

#[test]
fn volume_and_current_playlist() {
    assert_eq!(fetch_volume(&ok("42")), Some("42".to_string()));
    assert_eq!(fetch_volume(&failed()), None);
    assert_eq!(fetch_current_playlist(&ok("Road Trip")), "Road Trip");
    assert_eq!(fetch_current_playlist(&failed()), "");
}

#[test]
fn now_playing_parsing() {
    let np = fetch_now_playing(&ok("Song\nBand\nRecord\nplaying\n215.5\n12,25\ntrue"));
    assert_eq!(np.name, "Song");
    assert_eq!(np.artist, "Band");
    assert_eq!(np.album, "Record");
    assert_eq!(np.state, PlayerState::Playing);
    assert_eq!(np.duration_text, "215.5");
    assert_eq!(np.position_text, "12,25");
    assert_eq!(np.loved, Some(true));
    let six = fetch_now_playing(&ok("S\nA\nR\npaused\n1\n2"));
    assert_eq!(six.state, PlayerState::Paused);
    assert_eq!(six.loved, None);
    let stopped = fetch_now_playing(&ok("STOPPED"));
    assert_eq!(stopped.state, PlayerState::Stopped);
    assert_eq!(stopped.name, "");
    let off = fetch_now_playing(&ok("NOT_RUNNING"));
    assert_eq!(off.state, PlayerState::NotRunning);
    let short = fetch_now_playing(&ok("a\nb"));
    assert_eq!(short.state, PlayerState::Stopped);
    assert_eq!(short.name, "");
    assert_eq!(fetch_now_playing(&failed()).state, PlayerState::Stopped);
}

#[test]
fn playlist_names() {
    assert_eq!(
        fetch_playlists(&ok("Library\n  Chill \n\nRock")),
        vec!["Library".to_string(), "Chill".to_string(), "Rock".to_string()]
    );
    assert!(fetch_playlists(&ok("NOT_RUNNING")).is_empty());
    assert!(fetch_playlists(&ok("")).is_empty());
    assert!(fetch_playlists(&failed()).is_empty());
}

#[test]
fn up_next_readings() {
    assert_eq!(up_next_from_window(&ok("Next\nArtist")), Some(("Next".to_string(), "Artist".to_string())));
    assert_eq!(up_next_from_window(&ok("Only")), Some(("Only".to_string(), String::new())));
    assert_eq!(up_next_from_window(&ok("NO")), None);
    assert_eq!(up_next_from_window(&failed()), None);
    assert_eq!(fetch_up_next(&ok("N\nA\nextra")), ("N".to_string(), "A".to_string()));
    assert_eq!(fetch_up_next(&ok("NO")), (String::new(), String::new()));
    assert_eq!(fetch_up_next(&failed()), (String::new(), String::new()));
}

#[test]
fn queue_lines() {
    assert_eq!(
        fetch_queue(&ok("One\tA\nbroken\nTwo\tB\textra\r\n")),
        vec![("One".to_string(), "A".to_string()), ("Two".to_string(), "B".to_string())]
    );
    assert!(fetch_queue(&ok("")).is_empty());
    assert!(fetch_queue(&failed()).is_empty());
}

#[test]
fn airplay_lines() {
    assert_eq!(
        fetch_airplay_devices(&ok("Computer\ttrue\nKitchen\tfalse\nodd")),
        vec![("Computer".to_string(), true), ("Kitchen".to_string(), false)]
    );
    assert!(fetch_airplay_devices(&ok("NONE")).is_empty());
}

#[test]
fn playlist_track_lines_keep_line_numbers() {
    let rows = fetch_playlist_tracks(&ok("A\tX\t200\nbad line\nB\tY\t180.5"));
    assert_eq!(
        rows,
        vec![
            TrackRow {
                name: "A".to_string(),
                artist: "X".to_string(),
                duration_text: "200".to_string(),
                index: TrackIndex::Position(1),
            },
            TrackRow {
                name: "B".to_string(),
                artist: "Y".to_string(),
                duration_text: "180.5".to_string(),
                index: TrackIndex::Position(3),
            },
        ]
    );
    assert!(fetch_playlist_tracks(&ok("NONE")).is_empty());
}

#[test]
fn library_track_lines() {
    let rows = fetch_artist_tracks(&ok("A\tX\t200\t7\nB\tY\t100"));
    assert_eq!(rows[0].index, TrackIndex::Text("7".to_string()));
    assert_eq!(rows[1].index, TrackIndex::Absent);
    let found = fetch_library_search(&ok("S\tT\t3\t12"));
    assert_eq!(found.len(), 1);
    assert_eq!(found[0].name, "S");
    assert!(fetch_library_search(&failed()).is_empty());
}

#[test]
fn artists_sorted_case_insensitively() {
    assert_eq!(
        fetch_artists(&ok("beta\nAlpha\n  \ngamma\nALPHA\nBeta")),
        vec![
            "Alpha".to_string(),
            "ALPHA".to_string(),
            "beta".to_string(),
            "Beta".to_string(),
            "gamma".to_string()
        ]
    );
    assert!(fetch_artists(&ok("NONE")).is_empty());
}

#[test]
fn repeat_words_are_read_after_lowercasing() {
    let w = |s: &str| s.chars().collect::<Vec<char>>();
    assert_eq!(repeat_mode_from_word(&w("off")), Some("off".to_string()));
    assert_eq!(repeat_mode_from_word(&w("none")), Some("off".to_string()));
    assert_eq!(repeat_mode_from_word(&w("one")), Some("one".to_string()));
    assert_eq!(repeat_mode_from_word(&w("all")), Some("all".to_string()));
    assert_eq!(repeat_mode_from_word(&w("ALL")), None);
    assert_eq!(repeat_mode_from_word(&w("sometimes")), None);
}
