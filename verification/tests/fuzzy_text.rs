use musictui::fuzzy::{checked_fuzzy_score, fuzzy_score};
use musictui::rank::rank_scores;
use musictui::script::{
    applescript_escape, cmd_add_to_playlist, cmd_next, cmd_play_library_track, cmd_play_pause,
    cmd_play_playlist, cmd_play_track_in_playlist, cmd_prev, cmd_set_repeat, cmd_set_volume,
    cmd_stop, cmd_toggle_airplay, cmd_toggle_love, cmd_toggle_shuffle, library_search_script,
    playlist_tracks_script, playlists_script, queue_script, volume_script,
};

#[test]
fn fuzzy_empty_query_scores_zero() {
    assert_eq!(fuzzy_score("", "anything"), Some(0));
    assert_eq!(fuzzy_score("", ""), Some(0));
}

#[test]
fn fuzzy_exact_match_score() {
    // 5 + 7 + 7 for the three matches, 97 for a three-byte target.
    assert_eq!(fuzzy_score("abc", "abc"), Some(116));
}

#[test]
fn fuzzy_word_boundaries_and_case() {
    // 'a' at the start (4, case differs), 'b' after a space (4), 97 bonus.
    assert_eq!(fuzzy_score("AB", "a b"), Some(105));
    // exact case earns one more per character.
    assert_eq!(fuzzy_score("ab", "a b"), Some(107));
}

#[test]
fn fuzzy_no_match() {
    assert_eq!(fuzzy_score("xyz", "abc"), None);
    assert_eq!(fuzzy_score("abcd", "abc"), None);
    assert_eq!(fuzzy_score("ba", "ab"), None);
}

#[test]
fn fuzzy_prefers_short_targets() {
    let short = fuzzy_score("rock", "Rock").unwrap();
    let long = fuzzy_score("rock", "Rock Classics Collection").unwrap();
    assert!(short > long);
}

#[test]
fn fuzzy_byte_length_counts() {
    // "é" is two bytes: the bonus is 98; the match at the start earns 1 + 3 + 1.
    assert_eq!(fuzzy_score("é", "é"), Some(103));
}

#[test]
fn fuzzy_checked_reports_unscorable() {
    assert_eq!(checked_fuzzy_score("abc", "abc"), Some(Some(116)));
    assert_eq!(checked_fuzzy_score("q", "abc"), Some(None));
    // Lowercasing 'İ' gives two characters; the second match has no
    // character of the target to compare with.
    assert_eq!(checked_fuzzy_score("i\u{307}", "İ"), None);
}

#[test]
fn ranking_orders_by_score_then_position() {
    let s = vec![Some(3), None, Some(5), Some(3), Some(-1)];
    assert_eq!(rank_scores(&s), vec![2, 0, 3, 4]);
    assert_eq!(rank_scores(&[]), Vec::<usize>::new());
    assert_eq!(rank_scores(&[None, None]), Vec::<usize>::new());
}

#[test]
fn escape_quotes_backslashes_and_breaks() {
    assert_eq!(applescript_escape("plain"), "plain");
    assert_eq!(applescript_escape("a\"b\\c\nd\re"), "a\\\"b\\\\c d e");
    assert_eq!(applescript_escape(""), "");
}

#[test]
fn command_scripts() {
    assert_eq!(cmd_play_pause(), "tell application \"Music\" to playpause");
    assert_eq!(cmd_next(), "tell application \"Music\" to next track");
    assert_eq!(cmd_prev(), "tell application \"Music\" to previous track");
    assert_eq!(cmd_stop(), "tell application \"Music\" to stop");
    assert_eq!(
        cmd_play_playlist("My \"Mix\""),
        "tell application \"Music\" to play playlist \"My \\\"Mix\\\"\""
    );
    assert_eq!(
        cmd_play_track_in_playlist("Chill", 12),
        "tell application \"Music\"\n    play track 12 of playlist \"Chill\"\nend tell"
    );
    assert_eq!(cmd_set_volume(35), "set volume output volume 35");
    assert_eq!(cmd_set_volume(-1), "set volume output volume -1");
    assert_eq!(cmd_set_repeat("all"), "tell application \"Music\" to set song repeat to all");
    assert!(cmd_toggle_shuffle().contains("set shuffle enabled of p to not shuffle enabled of p"));
    assert!(cmd_toggle_love().contains("set loved of t to not loved of t"));
    assert!(cmd_toggle_airplay("Kitchen").contains("whose name is \"Kitchen\""));
    assert!(cmd_add_to_playlist("Faves").contains("duplicate ct to playlist \"Faves\""));
    let p = cmd_play_library_track("A\"B", "C");
    assert!(p.contains("for \"A\\\"B\" only songs"));
    assert!(p.contains("if name of t is \"A\\\"B\" and artist of t is \"C\" then"));
}

#[test]
fn fetch_scripts() {
    assert!(playlists_script().starts_with("set AppleScript's text item delimiters to \"\\n\"\ntell application \"Music\""));
    assert_eq!(volume_script(), "output volume of (get volume settings)");
    assert!(queue_script(10).contains("if cnt >= 10 then exit repeat"));
    assert!(queue_script(7).contains("tell process \"Music\""));
    assert!(playlist_tracks_script("Road \"Trip\"").contains("set p to playlist \"Road \\\"Trip\\\"\""));
    let s = library_search_script("beat", 50);
    assert!(s.contains("search playlist \"Library\" for \"beat\" only songs"));
    assert!(s.contains("if cnt >= 50 then exit repeat"));
}

#[test]
fn text_after_a_full_match_lowers_the_score_by_its_bytes() {
    let base = fuzzy_score("abc", "abc").unwrap();
    assert_eq!(fuzzy_score("abc", "abcxyz"), Some(base - 3));
    assert_eq!(fuzzy_score("abc", "abc and more"), Some(base - 9));
    let rock = fuzzy_score("rock", "Rock").unwrap();
    assert_eq!(fuzzy_score("rock", "Rock é"), Some(rock - 3));
}

#[test]
fn escaping_adds_one_byte_per_backslash_and_quote() {
    let s = "a\"b\\c\n";
    let e = applescript_escape(s);
    assert_eq!(e, "a\\\"b\\\\c ");
    assert_eq!(e.len(), s.len() + 2);
    assert_eq!(applescript_escape("plain").len(), 5);
}

#[test]
fn scoring_fits_when_lowercasing_keeps_the_length() {
    assert!(checked_fuzzy_score("zz", "Rock").is_some());
    assert!(checked_fuzzy_score("é", "ÉCOLE").is_some());
}
