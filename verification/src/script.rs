use vstd::prelude::*;
use vstd::utf8::{encode_utf8, encode_scalar};
use crate::text::{lemma_encode_utf8_concat, chars_of, string_of, append_str, append_chars, decimal, decimal_chars, signed_decimal, signed_decimal_chars};

verus! {

// ── Escaping ──────────────────────────────────────────────────────────

/// How one character is written inside an AppleScript string literal:
/// backslash and double quote get a backslash before them, line breaks
/// become spaces.
pub open spec fn escape_char(c: char) -> Seq<char> {
    if c == '\\' {
        seq!['\\', '\\']
    } else if c == '"' {
        seq!['\\', '"']
    } else if c == '\n' || c == '\r' {
        seq![' ']
    } else {
        seq![c]
    }
}

/// `s` written for the inside of an AppleScript string literal.
pub open spec fn escaped(s: Seq<char>) -> Seq<char>
    decreases s.len(),
{
    if s.len() == 0 {
        Seq::<char>::empty()
    } else {
        escaped(s.drop_last()) + escape_char(s.last())
    }
}

/// The characters of `s` escaped for an AppleScript string literal.
pub fn escape_chars(s: &str) -> (r: Vec<char>)
    ensures
        r@ == escaped(s@),
{
    let v = chars_of(s);
    let mut r: Vec<char> = Vec::new();
    let mut i: usize = 0;
    while i < v.len()
        invariant
            i <= v@.len(),
            v@ == s@,
            r@ == escaped(v@.take(i as int)),
        decreases v@.len() - i,
    {
        let c = v[i];
        assert(v@.take(i + 1).drop_last() =~= v@.take(i as int));
        if c == '\\' {
            r.push('\\');
            r.push('\\');
        } else if c == '"' {
            r.push('\\');
            r.push('"');
        } else if c == '\n' || c == '\r' {
            r.push(' ');
        } else {
            r.push(c);
        }
        assert(r@ =~= escaped(v@.take(i as int)) + escape_char(c));
        i = i + 1;
    }
    assert(v@.take(i as int) =~= v@);
    r
}

/// `s` made safe to stand between double quotes in an AppleScript:
/// backslashes and double quotes are escaped with a backslash, and carriage
/// returns and line feeds are replaced by spaces.
pub fn applescript_escape(s: &str) -> (r: String)
    ensures
        r@ == escaped(s@),
{
    let v = escape_chars(s);
    string_of(v.as_slice())
}


/// How AppleScript reads the inside of a string literal: a backslash takes
/// the character after it literally.
pub open spec fn unescape(s: Seq<char>) -> Seq<char>
    decreases s.len(),
{
    if s.len() == 0 {
        Seq::<char>::empty()
    } else if s[0] == '\\' && s.len() >= 2 {
        seq![s[1]] + unescape(s.skip(2))
    } else {
        seq![s[0]] + unescape(s.drop_first())
    }
}

/// `s` with each carriage return and line feed turned into a space.
pub open spec fn breaks_to_spaces(s: Seq<char>) -> Seq<char> {
    s.map_values(|c: char| if c == '\n' || c == '\r' { ' ' } else { c })
}

/// Escaping works character by character from the front too.
pub proof fn lemma_escaped_front(s: Seq<char>)
    requires
        s.len() > 0,
    ensures
        escaped(s) == escape_char(s[0]) + escaped(s.drop_first()),
    decreases s.len(),
{
    if s.len() == 1 {
        assert(s.drop_last() =~= Seq::<char>::empty());
        assert(s.drop_first() =~= Seq::<char>::empty());
        assert(escaped(s.drop_last()) =~= Seq::<char>::empty());
        assert(s.last() == s[0]);
        assert(escaped(s) =~= escape_char(s[0]));
    } else {
        lemma_escaped_front(s.drop_last());
        assert(s.drop_last().drop_first() =~= s.drop_first().drop_last());
        assert(s.drop_first().last() == s.last());
        assert(escaped(s) =~= escape_char(s[0]) + escaped(s.drop_first()));
    }
}

/// Reading an escaped string back as AppleScript does gives the text that
/// was escaped, with its line breaks turned into spaces: a name that holds quotes
/// or backslashes reaches the script unchanged and cannot end the literal
/// early.
pub proof fn law_unescape_escaped(s: Seq<char>)
    ensures
        unescape(escaped(s)) == breaks_to_spaces(s),
    decreases s.len(),
{
    if s.len() == 0 {
        assert(escaped(s) =~= Seq::<char>::empty());
        assert(breaks_to_spaces(s) =~= Seq::<char>::empty());
    } else {
        lemma_escaped_front(s);
        law_unescape_escaped(s.drop_first());
        let c = s[0];
        let rest = escaped(s.drop_first());
        let e = escaped(s);
        if c == '\\' || c == '"' {
            assert(e[0] == '\\');
            assert(e.len() >= 2);
            assert(e[1] == c);
            assert(e.skip(2) =~= rest);
        } else {
            assert(e[0] != '\\');
            assert(e.drop_first() =~= rest);
        }
        assert(breaks_to_spaces(s) =~= seq![if c == '\n' || c == '\r' { ' ' } else { c }]
            + breaks_to_spaces(s.drop_first()));
    }
}

/// How many backslashes and double quotes `s` holds.
pub open spec fn quoting_count(s: Seq<char>) -> nat
    decreases s.len(),
{
    if s.len() == 0 {
        0
    } else {
        quoting_count(s.drop_last()) + if s.last() == '\\' || s.last() == '"' {
            1nat
        } else {
            0nat
        }
    }
}

/// Escaping adds one backslash for each backslash and double quote and
/// changes nothing else in length, counted in characters and in UTF-8
/// bytes.
pub proof fn law_escaped_length(s: Seq<char>)
    ensures
        escaped(s).len() == s.len() + quoting_count(s),
        encode_utf8(escaped(s)).len() == encode_utf8(s).len() + quoting_count(s),
    decreases s.len(),
{
    if s.len() > 0 {
        let p = s.drop_last();
        let c = s.last();
        law_escaped_length(p);
        assert(p + seq![c] =~= s);
        lemma_encode_utf8_concat(p, seq![c]);
        lemma_encode_utf8_concat(escaped(p), escape_char(c));
        assert(seq![c].drop_first() =~= Seq::<char>::empty());
        if c == '\\' || c == '"' || c == '\n' || c == '\r' {
            let e = escape_char(c);
            reveal_with_fuel(encode_utf8, 3);
            assert(encode_scalar(c as u32).len() == 1);
            assert(encode_utf8(seq![c]) =~= encode_scalar(c as u32));
            if c == '\\' || c == '"' {
                assert(e == seq!['\\', c]);
                assert(e.drop_first() =~= seq![c]);
                assert(e.drop_first().drop_first() =~= Seq::<char>::empty());
                assert(encode_utf8(e) =~= encode_scalar('\\' as u32) + encode_scalar(c as u32));
                assert(encode_scalar('\\' as u32).len() == 1);
            } else {
                assert(e == seq![' ']);
                assert(e.drop_first() =~= Seq::<char>::empty());
                assert(encode_utf8(e) =~= encode_scalar(' ' as u32));
                assert(encode_scalar(' ' as u32).len() == 1);
            }
        } else {
            assert(escape_char(c) == seq![c]);
        }
    } else {
        assert(escaped(s) =~= Seq::<char>::empty());
    }
}

/// An escaped string holds no line breaks.
pub proof fn law_escaped_single_line(s: Seq<char>)
    ensures
        forall|i: int| 0 <= i < escaped(s).len() ==> escaped(s)[i] != '\n' && escaped(s)[i] != '\r',
    decreases s.len(),
{
    if s.len() > 0 {
        law_escaped_single_line(s.drop_last());
        let a = escaped(s.drop_last());
        let b = escape_char(s.last());
        assert forall|i: int| 0 <= i < escaped(s).len() implies escaped(s)[i] != '\n' && escaped(s)[i] != '\r' by {
            if i < a.len() {
                assert(escaped(s)[i] == a[i]);
            } else {
                assert(escaped(s)[i] == b[i - a.len()]);
            }
        }
    }
}

// ── Scripts with nothing to fill in but the app's name ────────────────

/// The text of `volume_script`.
pub open spec fn volume_script_text() -> Seq<char> {
    r#"output volume of (get volume settings)"#@
}

/// The script that reports the system output volume.
pub fn volume_script() -> (r: String)
    ensures
        r@ == volume_script_text(),
{
    let v = chars_of(r#"output volume of (get volume settings)"#);
    string_of(v.as_slice())
}

/// The text of `cmd_set_volume`.
pub open spec fn cmd_set_volume_text(vol: int) -> Seq<char> {
    "set volume output volume "@ + signed_decimal(vol)
}

/// The script that sets the system output volume to `vol`.
pub fn cmd_set_volume(vol: i32) -> (r: String)
    ensures
        r@ == cmd_set_volume_text(vol as int),
{
    let mut v: Vec<char> = Vec::new();
    append_str(&mut v, "set volume output volume ");
    let d = signed_decimal_chars(vol as i64);
    append_chars(&mut v, d.as_slice());
    string_of(v.as_slice())
}

/// The text of `now_playing_script`.
pub open spec fn now_playing_script_text() -> Seq<char> {
    r#"tell application "Music"
    if it is running then
        if player state is stopped then return "STOPPED"
        set t to current track
        set lv to false
        try
            set lv to loved of t
        end try
        return name of t & "\n" & artist of t & "\n" & album of t & "\n" & (player state as string) & "\n" & duration of t & "\n" & player position & "\n" & (lv as string)
    end if
end tell
return "NOT_RUNNING""#@
}

/// The script that reports the current track: name, artist, album, player state, duration, position and loved flag on lines of their own, or STOPPED / NOT_RUNNING.
pub fn now_playing_script() -> (r: String)
    ensures
        r@ == now_playing_script_text(),
{
    let mut v: Vec<char> = Vec::new();
    append_str(&mut v, r#"tell application "Music"
    if it is running then
        if player state is stopped then return "STOPPED"
        set t to current track
        set lv to false
        try
            set lv to loved of t
        end try
        return name of t & "\n" & artist of t & "\n" & album of t & "\n" & (player state as string) & "\n" & duration of t & "\n" & player position & "\n" & (lv as string)
    end if
end tell
return "NOT_RUNNING""#);
    string_of(v.as_slice())
}

/// The text of `playlists_script`.
pub open spec fn playlists_script_text() -> Seq<char> {
    r#"set AppleScript's text item delimiters to "\n"
tell application "Music"
    if it is running then return name of playlists as text
end tell
return "NOT_RUNNING""#@
}

/// The script that lists the names of all playlists, one per line, or NOT_RUNNING.
pub fn playlists_script() -> (r: String)
    ensures
        r@ == playlists_script_text(),
{
    let mut v: Vec<char> = Vec::new();
    append_str(&mut v, r#"set AppleScript's text item delimiters to "\n"
tell application "Music"
    if it is running then return name of playlists as text
end tell
return "NOT_RUNNING""#);
    string_of(v.as_slice())
}

/// The text of `up_next_ui_script`.
pub open spec fn up_next_ui_script_text() -> Seq<char> {
    r#"tell application "System Events"
    if not (exists process "Music") then return "NO"
    tell process "Music"
        if not (exists window 1) then return "NO"
        try
            set theTable to first table of scroll area 1 of window 1
            set row1 to first row of theTable
            set texts to value of static text of row1
            if (count of texts) >= 2 then
                return item 1 of texts & "\n" & item 2 of texts
            else if (count of texts) = 1 then
                return item 1 of texts
            end if
        end try
    end tell
end tell
return "NO""#@
}

/// The script that reads the first row of the Up Next table from the Music window: name and artist on two lines, or NO.
pub fn up_next_ui_script() -> (r: String)
    ensures
        r@ == up_next_ui_script_text(),
{
    let mut v: Vec<char> = Vec::new();
    append_str(&mut v, r#"tell application "System Events"
    if not (exists process "Music") then return "NO"
    tell process "Music"
        if not (exists window 1) then return "NO"
        try
            set theTable to first table of scroll area 1 of window 1
            set row1 to first row of theTable
            set texts to value of static text of row1
            if (count of texts) >= 2 then
                return item 1 of texts & "\n" & item 2 of texts
            else if (count of texts) = 1 then
                return item 1 of texts
            end if
        end try
    end tell
end tell
return "NO""#);
    string_of(v.as_slice())
}

/// The text of `up_next_playlist_script`.
pub open spec fn up_next_playlist_script_text() -> Seq<char> {
    r#"tell application "Music"
    if it is running then
        if player state is stopped then return "NO"
        try
            set cp to current playlist
            set ct to current track
            set pid to persistent ID of ct
            set tl to tracks of cp
            repeat with i from 1 to count of tl
                if persistent ID of item i of tl is pid then
                    if i < count of tl then
                        set nt to item (i + 1) of tl
                        return name of nt & "\n" & artist of nt
                    end if
                end if
            end repeat
        end try
    end if
end tell
return "NO""#@
}

/// The script that names the track after the current one in the current playlist: name and artist on two lines, or NO.
pub fn up_next_playlist_script() -> (r: String)
    ensures
        r@ == up_next_playlist_script_text(),
{
    let mut v: Vec<char> = Vec::new();
    append_str(&mut v, r#"tell application "Music"
    if it is running then
        if player state is stopped then return "NO"
        try
            set cp to current playlist
            set ct to current track
            set pid to persistent ID of ct
            set tl to tracks of cp
            repeat with i from 1 to count of tl
                if persistent ID of item i of tl is pid then
                    if i < count of tl then
                        set nt to item (i + 1) of tl
                        return name of nt & "\n" & artist of nt
                    end if
                end if
            end repeat
        end try
    end if
end tell
return "NO""#);
    string_of(v.as_slice())
}

/// The text of `shuffle_script`.
pub open spec fn shuffle_script_text() -> Seq<char> {
    r#"tell application "Music"
    if it is running then
        try
            set p to current playlist
            return shuffle enabled of p as string
        on error
            try
                return shuffle enabled as string
            end try
        end try
    end if
end tell
return "UNKNOWN""#@
}

/// The script that reports whether shuffle is on (true / false), or UNKNOWN.
pub fn shuffle_script() -> (r: String)
    ensures
        r@ == shuffle_script_text(),
{
    let mut v: Vec<char> = Vec::new();
    append_str(&mut v, r#"tell application "Music"
    if it is running then
        try
            set p to current playlist
            return shuffle enabled of p as string
        on error
            try
                return shuffle enabled as string
            end try
        end try
    end if
end tell
return "UNKNOWN""#);
    string_of(v.as_slice())
}

/// The text of `repeat_script`.
pub open spec fn repeat_script_text() -> Seq<char> {
    r#"tell application "Music"
    if it is running then
        try
            return song repeat as string
        end try
    end if
end tell
return "UNKNOWN""#@
}

/// The script that reports the song repeat mode, or UNKNOWN.
pub fn repeat_script() -> (r: String)
    ensures
        r@ == repeat_script_text(),
{
    let mut v: Vec<char> = Vec::new();
    append_str(&mut v, r#"tell application "Music"
    if it is running then
        try
            return song repeat as string
        end try
    end if
end tell
return "UNKNOWN""#);
    string_of(v.as_slice())
}

/// The text of `current_playlist_script`.
pub open spec fn current_playlist_script_text() -> Seq<char> {
    r#"tell application "Music"
    if it is running then
        if player state is not stopped then
            try
                return name of current playlist
            end try
        end if
    end if
end tell
return """#@
}

/// The script that names the playlist being played, or gives an empty reply.
pub fn current_playlist_script() -> (r: String)
    ensures
        r@ == current_playlist_script_text(),
{
    let mut v: Vec<char> = Vec::new();
    append_str(&mut v, r#"tell application "Music"
    if it is running then
        if player state is not stopped then
            try
                return name of current playlist
            end try
        end if
    end if
end tell
return """#);
    string_of(v.as_slice())
}

/// The text of `queue_script`.
pub open spec fn queue_script_text(max_items: nat) -> Seq<char> {
    r#"tell application "System Events"
    tell process "Music"
        set sg to splitter group 1 of window 1

        -- Open playing next panel if closed
        set wasOpen to true
        set allGroups to groups of sg
        repeat with g in allGroups
            try
                set cbs to checkboxes of g
                repeat with cb in cbs
                    if description of cb is "playing next" then
                        if value of cb is 0 then
                            set wasOpen to false
                            click cb
                            delay 1
                        end if
                    end if
                end repeat
            end try
        end repeat

        set out to ""
        try
            set g3 to group 3 of sg
            set sa to scroll area 1 of g3
            set tb to table 1 of sa
            set allRows to rows of tb
            set cnt to 0
            repeat with r in allRows
                try
                    set txts to value of static text of UI element 1 of r
                    if (count of txts) >= 2 then
                        set songName to item 1 of txts as string
                        -- Skip header rows
                        if songName is not "History" and songName is not "Playing Next" and songName is not "Autoplay" then
                            set artistAlbum to item 2 of txts as string
                            -- Extract artist (before " — ")
                            set oldDelims to AppleScript's text item delimiters
                            set AppleScript's text item delimiters to " — "
                            try
                                set artistPart to text item 1 of artistAlbum
                            on error
                                set artistPart to artistAlbum
                            end try
                            set AppleScript's text item delimiters to oldDelims
                            set out to out & songName & "\t" & artistPart & "\n"
                            set cnt to cnt + 1
                            if cnt >= "#@
        + decimal(max_items)
        + r#" then exit repeat
                        end if
                    end if
                end try
            end repeat
        end try

        -- Close panel if we opened it
        if not wasOpen then
            set allGroups to groups of sg
            repeat with g in allGroups
                try
                    set cbs to checkboxes of g
                    repeat with cb in cbs
                        if description of cb is "playing next" then
                            click cb
                            exit repeat
                        end if
                    end repeat
                end try
            end repeat
        end if

        return out
    end tell
end tell"#@
}

/// The script that reads up to `max_items` queued tracks from the Playing Next panel, one `name\tartist` line each.
pub fn queue_script(max_items: usize) -> (r: String)
    ensures
        r@ == queue_script_text(max_items as nat),
{
    let mut v: Vec<char> = Vec::new();
    append_str(&mut v, r#"tell application "System Events"
    tell process "Music"
        set sg to splitter group 1 of window 1

        -- Open playing next panel if closed
        set wasOpen to true
        set allGroups to groups of sg
        repeat with g in allGroups
            try
                set cbs to checkboxes of g
                repeat with cb in cbs
                    if description of cb is "playing next" then
                        if value of cb is 0 then
                            set wasOpen to false
                            click cb
                            delay 1
                        end if
                    end if
                end repeat
            end try
        end repeat

        set out to ""
        try
            set g3 to group 3 of sg
            set sa to scroll area 1 of g3
            set tb to table 1 of sa
            set allRows to rows of tb
            set cnt to 0
            repeat with r in allRows
                try
                    set txts to value of static text of UI element 1 of r
                    if (count of txts) >= 2 then
                        set songName to item 1 of txts as string
                        -- Skip header rows
                        if songName is not "History" and songName is not "Playing Next" and songName is not "Autoplay" then
                            set artistAlbum to item 2 of txts as string
                            -- Extract artist (before " — ")
                            set oldDelims to AppleScript's text item delimiters
                            set AppleScript's text item delimiters to " — "
                            try
                                set artistPart to text item 1 of artistAlbum
                            on error
                                set artistPart to artistAlbum
                            end try
                            set AppleScript's text item delimiters to oldDelims
                            set out to out & songName & "\t" & artistPart & "\n"
                            set cnt to cnt + 1
                            if cnt >= "#);
    let d = decimal_chars(max_items as u64);
    append_chars(&mut v, d.as_slice());
    append_str(&mut v, r#" then exit repeat
                        end if
                    end if
                end try
            end repeat
        end try

        -- Close panel if we opened it
        if not wasOpen then
            set allGroups to groups of sg
            repeat with g in allGroups
                try
                    set cbs to checkboxes of g
                    repeat with cb in cbs
                        if description of cb is "playing next" then
                            click cb
                            exit repeat
                        end if
                    end repeat
                end try
            end repeat
        end if

        return out
    end tell
end tell"#);
    string_of(v.as_slice())
}

/// The text of `playlist_tracks_script`.
pub open spec fn playlist_tracks_script_text(playlist_name: Seq<char>) -> Seq<char> {
    r#"tell application "Music"
    if it is running then
        try
            set p to playlist ""#@
        + escaped(playlist_name)
        + r#""
            set tl to tracks of p
            set out to ""
            repeat with i from 1 to count of tl
                set t to item i of tl
                set out to out & name of t & "\t" & artist of t & "\t" & (duration of t as string) & "\n"
            end repeat
            return out
        end try
    end if
end tell
return "NONE""#@
}

/// The script that lists the tracks of the named playlist, one `name\tartist\tduration` line each, or NONE.
pub fn playlist_tracks_script(playlist_name: &str) -> (r: String)
    ensures
        r@ == playlist_tracks_script_text(playlist_name@),
{
    let mut v: Vec<char> = Vec::new();
    append_str(&mut v, r#"tell application "Music"
    if it is running then
        try
            set p to playlist ""#);
    let e = escape_chars(playlist_name);
    append_chars(&mut v, e.as_slice());
    append_str(&mut v, r#""
            set tl to tracks of p
            set out to ""
            repeat with i from 1 to count of tl
                set t to item i of tl
                set out to out & name of t & "\t" & artist of t & "\t" & (duration of t as string) & "\n"
            end repeat
            return out
        end try
    end if
end tell
return "NONE""#);
    string_of(v.as_slice())
}

/// The text of `cmd_play_pause`.
pub open spec fn cmd_play_pause_text() -> Seq<char> {
    r#"tell application "Music" to playpause"#@
}

/// The script that toggles play / pause.
pub fn cmd_play_pause() -> (r: String)
    ensures
        r@ == cmd_play_pause_text(),
{
    let mut v: Vec<char> = Vec::new();
    append_str(&mut v, r#"tell application "Music" to playpause"#);
    string_of(v.as_slice())
}

/// The text of `cmd_next`.
pub open spec fn cmd_next_text() -> Seq<char> {
    r#"tell application "Music" to next track"#@
}

/// The script that skips to the next track.
pub fn cmd_next() -> (r: String)
    ensures
        r@ == cmd_next_text(),
{
    let mut v: Vec<char> = Vec::new();
    append_str(&mut v, r#"tell application "Music" to next track"#);
    string_of(v.as_slice())
}

/// The text of `cmd_prev`.
pub open spec fn cmd_prev_text() -> Seq<char> {
    r#"tell application "Music" to previous track"#@
}

/// The script that goes back to the previous track.
pub fn cmd_prev() -> (r: String)
    ensures
        r@ == cmd_prev_text(),
{
    let mut v: Vec<char> = Vec::new();
    append_str(&mut v, r#"tell application "Music" to previous track"#);
    string_of(v.as_slice())
}

/// The text of `cmd_stop`.
pub open spec fn cmd_stop_text() -> Seq<char> {
    r#"tell application "Music" to stop"#@
}

/// The script that stops playback.
pub fn cmd_stop() -> (r: String)
    ensures
        r@ == cmd_stop_text(),
{
    let mut v: Vec<char> = Vec::new();
    append_str(&mut v, r#"tell application "Music" to stop"#);
    string_of(v.as_slice())
}

/// The text of `cmd_play_playlist`.
pub open spec fn cmd_play_playlist_text(name: Seq<char>) -> Seq<char> {
    r#"tell application "Music" to play playlist ""#@
        + escaped(name)
        + r#"""#@
}

/// The script that plays the named playlist from its start.
pub fn cmd_play_playlist(name: &str) -> (r: String)
    ensures
        r@ == cmd_play_playlist_text(name@),
{
    let mut v: Vec<char> = Vec::new();
    append_str(&mut v, r#"tell application "Music" to play playlist ""#);
    let e = escape_chars(name);
    append_chars(&mut v, e.as_slice());
    append_str(&mut v, r#"""#);
    string_of(v.as_slice())
}

/// The text of `cmd_play_track_in_playlist`.
pub open spec fn cmd_play_track_in_playlist_text(playlist: Seq<char>, track_index: nat) -> Seq<char> {
    r#"tell application "Music"
    play track "#@
        + decimal(track_index)
        + r#" of playlist ""#@
        + escaped(playlist)
        + r#""
end tell"#@
}

/// The script that plays the track at the given 1-based position of the named playlist.
pub fn cmd_play_track_in_playlist(playlist: &str, track_index: usize) -> (r: String)
    ensures
        r@ == cmd_play_track_in_playlist_text(playlist@, track_index as nat),
{
    let mut v: Vec<char> = Vec::new();
    append_str(&mut v, r#"tell application "Music"
    play track "#);
    let d = decimal_chars(track_index as u64);
    append_chars(&mut v, d.as_slice());
    append_str(&mut v, r#" of playlist ""#);
    let e = escape_chars(playlist);
    append_chars(&mut v, e.as_slice());
    append_str(&mut v, r#""
end tell"#);
    string_of(v.as_slice())
}

/// The text of `cmd_toggle_shuffle`.
pub open spec fn cmd_toggle_shuffle_text() -> Seq<char> {
    r#"tell application "Music"
    if it is running then
        try
            set p to current playlist
            set shuffle enabled of p to not shuffle enabled of p
        on error
            try
                set shuffle enabled to not shuffle enabled
            end try
        end try
    end if
end tell"#@
}

/// The script that flips shuffle for the current playlist (or globally).
pub fn cmd_toggle_shuffle() -> (r: String)
    ensures
        r@ == cmd_toggle_shuffle_text(),
{
    let mut v: Vec<char> = Vec::new();
    append_str(&mut v, r#"tell application "Music"
    if it is running then
        try
            set p to current playlist
            set shuffle enabled of p to not shuffle enabled of p
        on error
            try
                set shuffle enabled to not shuffle enabled
            end try
        end try
    end if
end tell"#);
    string_of(v.as_slice())
}

/// The text of `cmd_toggle_love`.
pub open spec fn cmd_toggle_love_text() -> Seq<char> {
    r#"tell application "Music"
    if it is running then
        if player state is not stopped then
            set t to current track
            try
                set loved of t to not loved of t
            end try
        end if
    end if
end tell"#@
}

/// The script that flips the loved flag of the current track.
pub fn cmd_toggle_love() -> (r: String)
    ensures
        r@ == cmd_toggle_love_text(),
{
    let mut v: Vec<char> = Vec::new();
    append_str(&mut v, r#"tell application "Music"
    if it is running then
        if player state is not stopped then
            set t to current track
            try
                set loved of t to not loved of t
            end try
        end if
    end if
end tell"#);
    string_of(v.as_slice())
}

/// The text of `airplay_devices_script`.
pub open spec fn airplay_devices_script_text() -> Seq<char> {
    r#"tell application "Music"
    if it is running then
        try
            set devs to AirPlay devices
            set out to ""
            repeat with d in devs
                set out to out & name of d & "\t" & (selected of d as string) & "\n"
            end repeat
            return out
        end try
    end if
end tell
return "NONE""#@
}

/// The script that lists AirPlay devices, one `name\tselected` line each, or NONE.
pub fn airplay_devices_script() -> (r: String)
    ensures
        r@ == airplay_devices_script_text(),
{
    let mut v: Vec<char> = Vec::new();
    append_str(&mut v, r#"tell application "Music"
    if it is running then
        try
            set devs to AirPlay devices
            set out to ""
            repeat with d in devs
                set out to out & name of d & "\t" & (selected of d as string) & "\n"
            end repeat
            return out
        end try
    end if
end tell
return "NONE""#);
    string_of(v.as_slice())
}

/// The text of `artists_script`.
pub open spec fn artists_script_text() -> Seq<char> {
    r#"tell application "Music"
    if it is running then
        try
            set allArtists to artist of tracks of playlist "Library"
            set uniqueArts to {}
            repeat with a in allArtists
                set artStr to a as string
                if artStr is not in uniqueArts and artStr is not "" then
                    set end of uniqueArts to artStr
                end if
            end repeat
            set AppleScript's text item delimiters to "\n"
            return uniqueArts as text
        end try
    end if
end tell
return "NONE""#@
}

/// The script that lists the distinct artists of the library, one per line, or NONE.
pub fn artists_script() -> (r: String)
    ensures
        r@ == artists_script_text(),
{
    let mut v: Vec<char> = Vec::new();
    append_str(&mut v, r#"tell application "Music"
    if it is running then
        try
            set allArtists to artist of tracks of playlist "Library"
            set uniqueArts to {}
            repeat with a in allArtists
                set artStr to a as string
                if artStr is not in uniqueArts and artStr is not "" then
                    set end of uniqueArts to artStr
                end if
            end repeat
            set AppleScript's text item delimiters to "\n"
            return uniqueArts as text
        end try
    end if
end tell
return "NONE""#);
    string_of(v.as_slice())
}

/// The text of `artist_tracks_script`.
pub open spec fn artist_tracks_script_text(artist: Seq<char>) -> Seq<char> {
    r#"tell application "Music"
    if it is running then
        try
            set results to (every track of playlist "Library" whose artist is ""#@
        + escaped(artist)
        + r#"")
            set out to ""
            set idx to 0
            repeat with t in results
                set idx to idx + 1
                set out to out & name of t & "\t" & artist of t & "\t" & (duration of t as string) & "\t" & (idx as string) & "\n"
            end repeat
            return out
        end try
    end if
end tell
return "NONE""#@
}

/// The script that lists the library tracks of an artist, one `name\tartist\tduration\tposition` line each, or NONE.
pub fn artist_tracks_script(artist: &str) -> (r: String)
    ensures
        r@ == artist_tracks_script_text(artist@),
{
    let mut v: Vec<char> = Vec::new();
    append_str(&mut v, r#"tell application "Music"
    if it is running then
        try
            set results to (every track of playlist "Library" whose artist is ""#);
    let e = escape_chars(artist);
    append_chars(&mut v, e.as_slice());
    append_str(&mut v, r#"")
            set out to ""
            set idx to 0
            repeat with t in results
                set idx to idx + 1
                set out to out & name of t & "\t" & artist of t & "\t" & (duration of t as string) & "\t" & (idx as string) & "\n"
            end repeat
            return out
        end try
    end if
end tell
return "NONE""#);
    string_of(v.as_slice())
}

/// `p` stands in `s` at position `i`.
pub open spec fn occurs_at(s: Seq<char>, p: Seq<char>, i: int) -> bool {
    0 <= i && i + p.len() <= s.len() && s.subrange(i, i + p.len()) == p
}

/// The artist-tracks script picks the artist's tracks by equality: it asks
/// for the tracks `whose artist is` the escaped name, closed by a quote
/// and a parenthesis, so only tracks by exactly that artist are listed.
pub proof fn law_artist_tracks_by_equality(artist: Seq<char>)
    ensures
        exists|i: int|
            occurs_at(
                artist_tracks_script_text(artist),
                "whose artist is \""@ + escaped(artist) + "\")"@,
                i,
            ),
{
    let head = r#"tell application "Music"
    if it is running then
        try
            set results to (every track of playlist "Library" "#@;
    let key = "whose artist is \""@;
    let close = "\")"@;
    let whole = r#"tell application "Music"
    if it is running then
        try
            set results to (every track of playlist "Library" whose artist is ""#@;
    let rest = r#"")
            set out to ""
            set idx to 0
            repeat with t in results
                set idx to idx + 1
                set out to out & name of t & "\t" & artist of t & "\t" & (duration of t as string) & "\t" & (idx as string) & "\n"
            end repeat
            return out
        end try
    end if
end tell
return "NONE""#@;
    reveal_strlit(r#"tell application "Music"
    if it is running then
        try
            set results to (every track of playlist "Library" "#);
    reveal_strlit(r#"tell application "Music"
    if it is running then
        try
            set results to (every track of playlist "Library" whose artist is ""#);
    reveal_strlit(r#"")
            set out to ""
            set idx to 0
            repeat with t in results
                set idx to idx + 1
                set out to out & name of t & "\t" & artist of t & "\t" & (duration of t as string) & "\t" & (idx as string) & "\n"
            end repeat
            return out
        end try
    end if
end tell
return "NONE""#);
    reveal_strlit("whose artist is \"");
    reveal_strlit("\")");
    let e = escaped(artist);
    let pat = key + e + close;
    let t = artist_tracks_script_text(artist);
    assert(whole =~= head + key);
    assert(rest.take(2) =~= close);
    assert(t =~= head + key + e + rest);
    assert(t.subrange(head.len() as int, (head.len() + pat.len()) as int) =~= pat);
    assert(occurs_at(t, pat, head.len() as int));
}

/// The text of `library_search_script`.
pub open spec fn library_search_script_text(query: Seq<char>, max_results: nat) -> Seq<char> {
    r#"tell application "Music"
    if it is running then
        try
            set results to (search playlist "Library" for ""#@
        + escaped(query)
        + r#"" only songs)
            set out to ""
            set cnt to 0
            repeat with t in results
                set out to out & name of t & "\t" & artist of t & "\t" & (duration of t as string) & "\t" & (index of t as string) & "\n"
                set cnt to cnt + 1
                if cnt >= "#@
        + decimal(max_results)
        + r#" then exit repeat
            end repeat
            return out
        end try
    end if
end tell
return "NONE""#@
}

/// The script that searches the library for songs, listing at most `max_results` of them as `name\tartist\tduration\tindex` lines, or NONE.
pub fn library_search_script(query: &str, max_results: usize) -> (r: String)
    ensures
        r@ == library_search_script_text(query@, max_results as nat),
{
    let mut v: Vec<char> = Vec::new();
    append_str(&mut v, r#"tell application "Music"
    if it is running then
        try
            set results to (search playlist "Library" for ""#);
    let e = escape_chars(query);
    append_chars(&mut v, e.as_slice());
    append_str(&mut v, r#"" only songs)
            set out to ""
            set cnt to 0
            repeat with t in results
                set out to out & name of t & "\t" & artist of t & "\t" & (duration of t as string) & "\t" & (index of t as string) & "\n"
                set cnt to cnt + 1
                if cnt >= "#);
    let d = decimal_chars(max_results as u64);
    append_chars(&mut v, d.as_slice());
    append_str(&mut v, r#" then exit repeat
            end repeat
            return out
        end try
    end if
end tell
return "NONE""#);
    string_of(v.as_slice())
}

/// The text of `cmd_play_library_track`.
pub open spec fn cmd_play_library_track_text(track_name: Seq<char>, artist: Seq<char>) -> Seq<char> {
    r#"tell application "Music"
    if it is running then
        try
            set results to (search playlist "Library" for ""#@
        + escaped(track_name)
        + r#"" only songs)
            repeat with t in results
                if name of t is ""#@
        + escaped(track_name)
        + r#"" and artist of t is ""#@
        + escaped(artist)
        + r#"" then
                    play t
                    return "OK"
                end if
            end repeat
        end try
    end if
end tell
return "FAIL""#@
}

/// The script that finds a library song by name and artist and plays it.
pub fn cmd_play_library_track(track_name: &str, artist: &str) -> (r: String)
    ensures
        r@ == cmd_play_library_track_text(track_name@, artist@),
{
    let mut v: Vec<char> = Vec::new();
    append_str(&mut v, r#"tell application "Music"
    if it is running then
        try
            set results to (search playlist "Library" for ""#);
    let e = escape_chars(track_name);
    append_chars(&mut v, e.as_slice());
    append_str(&mut v, r#"" only songs)
            repeat with t in results
                if name of t is ""#);
    let e = escape_chars(track_name);
    append_chars(&mut v, e.as_slice());
    append_str(&mut v, r#"" and artist of t is ""#);
    let e = escape_chars(artist);
    append_chars(&mut v, e.as_slice());
    append_str(&mut v, r#"" then
                    play t
                    return "OK"
                end if
            end repeat
        end try
    end if
end tell
return "FAIL""#);
    string_of(v.as_slice())
}

/// The text of `cmd_toggle_airplay`.
pub open spec fn cmd_toggle_airplay_text(device_name: Seq<char>) -> Seq<char> {
    r#"tell application "Music"
    if it is running then
        try
            set d to (first AirPlay device whose name is ""#@
        + escaped(device_name)
        + r#"")
            set selected of d to not selected of d
        end try
    end if
end tell"#@
}

/// The script that flips whether the named AirPlay device is selected.
pub fn cmd_toggle_airplay(device_name: &str) -> (r: String)
    ensures
        r@ == cmd_toggle_airplay_text(device_name@),
{
    let mut v: Vec<char> = Vec::new();
    append_str(&mut v, r#"tell application "Music"
    if it is running then
        try
            set d to (first AirPlay device whose name is ""#);
    let e = escape_chars(device_name);
    append_chars(&mut v, e.as_slice());
    append_str(&mut v, r#"")
            set selected of d to not selected of d
        end try
    end if
end tell"#);
    string_of(v.as_slice())
}

/// The text of `cmd_set_repeat`.
pub open spec fn cmd_set_repeat_text(mode: Seq<char>) -> Seq<char> {
    r#"tell application "Music" to set song repeat to "#@
        + mode
}

/// The script that sets the song repeat mode to `mode`, written into the script as it is.
pub fn cmd_set_repeat(mode: &str) -> (r: String)
    ensures
        r@ == cmd_set_repeat_text(mode@),
{
    let mut v: Vec<char> = Vec::new();
    append_str(&mut v, r#"tell application "Music" to set song repeat to "#);
    append_str(&mut v, mode);
    string_of(v.as_slice())
}

/// The text of `cmd_add_to_playlist`.
pub open spec fn cmd_add_to_playlist_text(playlist_name: Seq<char>) -> Seq<char> {
    r#"tell application "Music"
    set ct to current track
    duplicate ct to playlist ""#@
        + escaped(playlist_name)
        + r#""
end tell"#@
}

/// The script that copies the current track into the named playlist.
pub fn cmd_add_to_playlist(playlist_name: &str) -> (r: String)
    ensures
        r@ == cmd_add_to_playlist_text(playlist_name@),
{
    let mut v: Vec<char> = Vec::new();
    append_str(&mut v, r#"tell application "Music"
    set ct to current track
    duplicate ct to playlist ""#);
    let e = escape_chars(playlist_name);
    append_chars(&mut v, e.as_slice());
    append_str(&mut v, r#""
end tell"#);
    string_of(v.as_slice())
}

} // verus!
