use vstd::prelude::*;
use vstd::utf8::{valid_utf8, decode_utf8};
use crate::text::{lemma_split_without_sep, lines, lines_of, trim, trim_str, trim_chars, string_of, chars_of, is_text, is_digit, split, split_chars, views, lowercase, str_lowercase};
use crate::player::{PlayerState, parse_state};
use crate::rank::{is_key_order, key_order, key_views};

verus! {

// ── The reply of a script run ─────────────────────────────────────────

/// What `String::from_utf8_lossy` makes of a byte string.
pub uninterp spec fn utf8_lossy(b: Seq<u8>) -> Seq<char>;

/// Calls `String::from_utf8_lossy`: valid UTF-8 decodes as it is, and each
/// invalid sequence becomes U+FFFD; only the valid case is stated, the
/// replacement rule stays under the name.
#[verifier::external_body]
fn decode_lossy(b: &[u8]) -> (r: String)
    ensures
        r@ == utf8_lossy(b@),
        valid_utf8(b@) ==> r@ == decode_utf8(b@),
{
    String::from_utf8_lossy(b).into_owned()
}

/// The text of a finished script run as the program reads it: the
/// trimmed standard output when the run succeeded, else the trimmed
/// standard error as the failure.
pub open spec fn reply_of(success: bool, stdout: Seq<u8>, stderr: Seq<u8>) -> Result<Seq<char>, Seq<char>> {
    if success {
        Ok(trim(utf8_lossy(stdout)))
    } else {
        Err(trim(utf8_lossy(stderr)))
    }
}

/// The view of a reply.
pub open spec fn reply_view(r: Result<String, String>) -> Result<Seq<char>, Seq<char>> {
    match r {
        Ok(s) => Ok(s@),
        Err(e) => Err(e@),
    }
}

/// The reply of a finished script run, from its exit status and output.
pub fn script_reply(success: bool, stdout: &[u8], stderr: &[u8]) -> (r: Result<String, String>)
    ensures
        reply_view(r) == reply_of(success, stdout@, stderr@),
{
    if success {
        let s = decode_lossy(stdout);
        let t = trim_str(s.as_str());
        Ok(string_of(t.as_slice()))
    } else {
        let s = decode_lossy(stderr);
        let t = trim_str(s.as_str());
        Err(string_of(t.as_slice()))
    }
}

// ── Numbers ───────────────────────────────────────────────────────────

/// What is kept of one character of a number: digits, '.' and '-' stay, a
/// ',' becomes '.' when it is the decimal separator and is dropped when it
/// groups thousands, anything else is dropped.
pub open spec fn numeric_char(c: char, comma_is_point: bool) -> Seq<char> {
    if c == ',' {
        if comma_is_point {
            seq!['.']
        } else {
            Seq::<char>::empty()
        }
    } else if is_digit(c) || c == '.' || c == '-' {
        seq![c]
    } else {
        Seq::<char>::empty()
    }
}

/// The characters of `s` that are kept of a number.
pub open spec fn numeric_chars(s: Seq<char>, comma_is_point: bool) -> Seq<char>
    decreases s.len(),
{
    if s.len() == 0 {
        Seq::<char>::empty()
    } else {
        numeric_chars(s.drop_last(), comma_is_point) + numeric_char(s.last(), comma_is_point)
    }
}

/// The text of a number as the Music app writes it, made ready to be read
/// as a decimal: trimmed, a lone ',' taken as the decimal point (when
/// there is no '.'), other ','s dropped, and everything but digits, '.'
/// and '-' left out.
pub open spec fn number_text(s: Seq<char>) -> Seq<char> {
    let t = trim(s);
    numeric_chars(t, t.contains(',') && !t.contains('.'))
}

/// Whether `c` occurs in `s`.
pub fn contains_char(s: &[char], c: char) -> (r: bool)
    ensures
        r == s@.contains(c),
{
    let mut i: usize = 0;
    while i < s.len()
        invariant
            i <= s@.len(),
            forall|k: int| 0 <= k < i ==> s@[k] != c,
        decreases s@.len() - i,
    {
        if s[i] == c {
            return true;
        }
        i = i + 1;
    }
    false
}

/// The characters of `s` kept of a number (see `number_text`).
pub fn number_chars(s: &str) -> (r: Vec<char>)
    ensures
        r@ == number_text(s@),
{
    let t = trim_str(s);
    let comma_is_point = contains_char(t.as_slice(), ',') && !contains_char(t.as_slice(), '.');
    let mut r: Vec<char> = Vec::new();
    let mut i: usize = 0;
    while i < t.len()
        invariant
            i <= t@.len(),
            t@ == trim(s@),
            comma_is_point == (t@.contains(',') && !t@.contains('.')),
            r@ == numeric_chars(t@.take(i as int), comma_is_point),
        decreases t@.len() - i,
    {
        let c = t[i];
        assert(t@.take(i + 1).drop_last() =~= t@.take(i as int));
        if c == ',' {
            if comma_is_point {
                r.push('.');
            }
        } else if ('0' <= c && c <= '9') || c == '.' || c == '-' {
            r.push(c);
        }
        assert(r@ =~= numeric_chars(t@.take(i as int), comma_is_point) + numeric_char(c, comma_is_point));
        i = i + 1;
    }
    assert(t@.take(i as int) =~= t@);
    r
}

/// The text of a number made ready to be read as a decimal (see
/// `number_text`); reading it as a float is left to the caller.
pub fn number_string(s: &str) -> (r: String)
    ensures
        r@ == number_text(s@),
{
    let v = number_chars(s);
    string_of(v.as_slice())
}

// ── Single values ─────────────────────────────────────────────────────

/// The shuffle setting a reply reports: `true` and `false` are known,
/// anything else, or a failed run, is unknown.
pub fn fetch_shuffle(reply: &Result<String, String>) -> (r: Option<bool>)
    ensures
        r == (match reply_view(*reply) {
            Ok(out) => if out == "true"@ {
                Some(true)
            } else if out == "false"@ {
                Some(false)
            } else {
                None
            },
            Err(_) => None,
        }),
{
    match reply {
        Ok(out) => {
            let v = chars_of(out.as_str());
            if is_text(v.as_slice(), "true") {
                Some(true)
            } else if is_text(v.as_slice(), "false") {
                Some(false)
            } else {
                None
            }
        },
        Err(_) => None,
    }
}

/// The repeat mode named by a word, once trimmed and lowercased: `off` or
/// `none` is off, `one` and `all` are themselves, anything else unknown.
pub open spec fn repeat_mode_of(w: Seq<char>) -> Option<Seq<char>> {
    if w == "off"@ || w == "none"@ {
        Some("off"@)
    } else if w == "one"@ {
        Some("one"@)
    } else if w == "all"@ {
        Some("all"@)
    } else {
        None
    }
}

/// Reads a trimmed, lowercased repeat word (see `repeat_mode_of`).
pub fn repeat_mode_from_word(w: &[char]) -> (r: Option<String>)
    ensures
        opt_view(r) == repeat_mode_of(w@),
{
    if is_text(w, "off") || is_text(w, "none") {
        Some(string_of(chars_of("off").as_slice()))
    } else if is_text(w, "one") {
        Some(string_of(chars_of("one").as_slice()))
    } else if is_text(w, "all") {
        Some(string_of(chars_of("all").as_slice()))
    } else {
        None
    }
}

/// The view of an optional string.
pub open spec fn opt_view(o: Option<String>) -> Option<Seq<char>> {
    match o {
        Some(s) => Some(s@),
        None => None,
    }
}

/// The repeat mode a reply reports.
pub fn fetch_repeat(reply: &Result<String, String>) -> (r: Option<String>)
    ensures
        opt_view(r) == (match reply_view(*reply) {
            Ok(out) => repeat_mode_of(str_lowercase(trim(out))),
            Err(_) => None,
        }),
{
    match reply {
        Ok(out) => {
            let t = trim_str(out.as_str());
            let ts = string_of(t.as_slice());
            let l = lowercase(ts.as_str());
            let w = chars_of(l.as_str());
            repeat_mode_from_word(w.as_slice())
        },
        Err(_) => None,
    }
}

/// The volume a reply reports, as number text still to be read as a
/// decimal (see `number_text`); `None` for a failed run, which the caller
/// shows as an unknown volume.
pub fn fetch_volume(reply: &Result<String, String>) -> (r: Option<String>)
    ensures
        opt_view(r) == (match reply_view(*reply) {
            Ok(out) => Some(number_text(out)),
            Err(_) => None,
        }),
{
    match reply {
        Ok(out) => Some(number_string(out.as_str())),
        Err(_) => None,
    }
}

/// The name of the playlist being played: the reply itself, or empty when
/// the run failed.
pub fn fetch_current_playlist(reply: &Result<String, String>) -> (r: String)
    ensures
        r@ == (match reply_view(*reply) {
            Ok(out) => out,
            Err(_) => Seq::<char>::empty(),
        }),
{
    match reply {
        Ok(out) => out.clone(),
        Err(_) => String::new(),
    }
}

// ── Now playing ───────────────────────────────────────────────────────

/// The current track as a reply reports it; the duration and position
/// are kept as number text (see `number_text`) for the caller to read.
#[derive(Clone, Debug, PartialEq)]
pub struct NowPlaying {
    pub name: String,
    pub artist: String,
    pub album: String,
    pub state: PlayerState,
    pub duration_text: String,
    pub position_text: String,
    pub loved: Option<bool>,
}

/// The fields of a `NowPlaying`.
pub ghost struct NowPlayingView {
    pub name: Seq<char>,
    pub artist: Seq<char>,
    pub album: Seq<char>,
    pub state: PlayerState,
    pub duration: Seq<char>,
    pub position: Seq<char>,
    pub loved: Option<bool>,
}

/// The fields of `n`.
pub open spec fn now_playing_view(n: NowPlaying) -> NowPlayingView {
    NowPlayingView {
        name: n.name@,
        artist: n.artist@,
        album: n.album@,
        state: n.state,
        duration: n.duration_text@,
        position: n.position_text@,
        loved: n.loved,
    }
}

/// No track, in the given state.
pub open spec fn no_track(state: PlayerState) -> NowPlayingView {
    NowPlayingView {
        name: Seq::<char>::empty(),
        artist: Seq::<char>::empty(),
        album: Seq::<char>::empty(),
        state: state,
        duration: Seq::<char>::empty(),
        position: Seq::<char>::empty(),
        loved: None,
    }
}

/// The loved flag a word reports.
pub open spec fn loved_of(w: Seq<char>) -> Option<bool> {
    if w == "true"@ {
        Some(true)
    } else if w == "false"@ {
        Some(false)
    } else {
        None
    }
}

/// The current track a successful reply reports: STOPPED, NOT_RUNNING or
/// nothing give no track in that state; otherwise seven lines give name,
/// artist, album, state, duration, position and (if present) the loved
/// flag, and fewer than six lines give no track, stopped.
pub open spec fn now_playing_of(out: Seq<char>) -> NowPlayingView {
    if out == "STOPPED"@ || out == "NOT_RUNNING"@ || out.len() == 0 {
        no_track(parse_state(out))
    } else {
        let p = split(out, '\n');
        if p.len() >= 6 {
            NowPlayingView {
                name: p[0],
                artist: p[1],
                album: p[2],
                state: parse_state(p[3]),
                duration: p[4],
                position: p[5],
                loved: if p.len() > 6 {
                    loved_of(trim(p[6]))
                } else {
                    None
                },
            }
        } else {
            no_track(PlayerState::Stopped)
        }
    }
}

/// A reply of at least six lines names the track line by line: name,
/// artist, album, state, duration and position; a seventh line, trimmed,
/// is the loved flag, read back as the script wrote it: "true" is loved,
/// "false" is known not to be loved, anything else (or no seventh line)
/// is unknown.
pub proof fn law_now_playing_lines(out: Seq<char>)
    requires
        split(out, '\n').len() >= 6,
    ensures
        ({
            let p = split(out, '\n');
            let n = now_playing_of(out);
            &&& n.name == p[0]
            &&& n.artist == p[1]
            &&& n.album == p[2]
            &&& n.state == parse_state(p[3])
            &&& n.duration == p[4]
            &&& n.position == p[5]
            &&& p.len() > 6 && trim(p[6]) == "true"@ ==> n.loved == Some(true)
            &&& p.len() > 6 && trim(p[6]) == "false"@ ==> n.loved == Some(false)
            &&& (p.len() <= 6 || (trim(p[6]) != "true"@ && trim(p[6]) != "false"@)) ==> n.loved is None
        }),
{
    reveal_strlit("STOPPED");
    reveal_strlit("NOT_RUNNING");
    reveal_strlit("true");
    reveal_strlit("false");
    assert("true"@ != "false"@) by {
        assert("true"@[0] != "false"@[0]);
    }
    if out == "STOPPED"@ || out == "NOT_RUNNING"@ || out.len() == 0 {
        assert(!out.contains('\n'));
        lemma_split_without_sep(out, '\n');
        assert(false);
    }
}

/// A `NowPlaying` without a track.
fn empty_now_playing(state: PlayerState) -> (r: NowPlaying)
    ensures
        now_playing_view(r) == no_track(state),
{
    NowPlaying {
        name: String::new(),
        artist: String::new(),
        album: String::new(),
        state: state,
        duration_text: String::new(),
        position_text: String::new(),
        loved: None,
    }
}

/// The current track a reply reports; a failed run reports none.
pub fn fetch_now_playing(reply: &Result<String, String>) -> (r: NowPlaying)
    ensures
        now_playing_view(r) == (match reply_view(*reply) {
            Ok(out) => now_playing_of(out),
            Err(_) => no_track(PlayerState::Stopped),
        }),
{
    match reply {
        Ok(out) => {
            let v = chars_of(out.as_str());
            if is_text(v.as_slice(), "STOPPED") || is_text(v.as_slice(), "NOT_RUNNING") || v.len()
                == 0 {
                return empty_now_playing(PlayerState::from_str(out.as_str()));
            }
            let p = split_chars(v.as_slice(), '\n');
            if p.len() >= 6 {
                assert(views(p@)[0] == p@[0]@);
                assert(views(p@)[1] == p@[1]@);
                assert(views(p@)[2] == p@[2]@);
                assert(views(p@)[3] == p@[3]@);
                assert(views(p@)[4] == p@[4]@);
                assert(views(p@)[5] == p@[5]@);
                let loved = if p.len() > 6 {
                    assert(views(p@)[6] == p@[6]@);
                    let w = trim_chars(p[6].as_slice());
                    if is_text(w.as_slice(), "true") {
                        Some(true)
                    } else if is_text(w.as_slice(), "false") {
                        Some(false)
                    } else {
                        None
                    }
                } else {
                    None
                };
                let state_text = string_of(p[3].as_slice());
                NowPlaying {
                    name: string_of(p[0].as_slice()),
                    artist: string_of(p[1].as_slice()),
                    album: string_of(p[2].as_slice()),
                    state: PlayerState::from_str(state_text.as_str()),
                    duration_text: string_of(p[4].as_slice()),
                    position_text: string_of(p[5].as_slice()),
                    loved: loved,
                }
            } else {
                empty_now_playing(PlayerState::Stopped)
            }
        },
        Err(_) => empty_now_playing(PlayerState::Stopped),
    }
}

} // verus!

verus! {

// ── Lists ─────────────────────────────────────────────────────────────

/// The views of some strings.
pub open spec fn string_views(v: Seq<String>) -> Seq<Seq<char>> {
    v.map_values(|s: String| s@)
}

/// The views of some pairs of strings.
pub open spec fn pair_views(v: Seq<(String, String)>) -> Seq<(Seq<char>, Seq<char>)> {
    v.map_values(|p: (String, String)| (p.0@, p.1@))
}

/// The trimmed pieces among the first `n` that are not empty.
pub open spec fn nonempty_trimmed(ps: Seq<Seq<char>>, n: nat) -> Seq<Seq<char>>
    decreases n,
{
    if n == 0 {
        Seq::<Seq<char>>::empty()
    } else {
        let prev = nonempty_trimmed(ps, (n - 1) as nat);
        if trim(ps[n - 1]).len() > 0 {
            prev.push(trim(ps[n - 1]))
        } else {
            prev
        }
    }
}

/// The playlist names a successful reply lists: one per line, trimmed,
/// blank lines left out; NOT_RUNNING or nothing lists none.
pub open spec fn playlists_of(out: Seq<char>) -> Seq<Seq<char>> {
    if out == "NOT_RUNNING"@ || out.len() == 0 {
        Seq::<Seq<char>>::empty()
    } else {
        nonempty_trimmed(split(out, '\n'), split(out, '\n').len())
    }
}

/// The trimmed, non-blank pieces of `ps`.
fn keep_trimmed(ps: &Vec<Vec<char>>) -> (r: Vec<String>)
    ensures
        string_views(r@) == nonempty_trimmed(views(ps@), ps@.len() as nat),
{
    let mut r: Vec<String> = Vec::new();
    let mut i: usize = 0;
    while i < ps.len()
        invariant
            i <= ps@.len(),
            string_views(r@) == nonempty_trimmed(views(ps@), i as nat),
        decreases ps@.len() - i,
    {
        let t = trim_chars(ps[i].as_slice());
        assert(views(ps@)[i as int] == ps@[i as int]@);
        if t.len() > 0 {
            let ghost before = string_views(r@);
            r.push(string_of(t.as_slice()));
            assert(string_views(r@) =~= before.push(t@));
        }
        i = i + 1;
    }
    r
}

/// The playlist names a reply lists; a failed run lists none.
pub fn fetch_playlists(reply: &Result<String, String>) -> (r: Vec<String>)
    ensures
        string_views(r@) == (match reply_view(*reply) {
            Ok(out) => playlists_of(out),
            Err(_) => Seq::<Seq<char>>::empty(),
        }),
{
    match reply {
        Ok(out) => {
            let v = chars_of(out.as_str());
            if is_text(v.as_slice(), "NOT_RUNNING") || v.len() == 0 {
                let r: Vec<String> = Vec::new();
                assert(string_views(r@) =~= Seq::<Seq<char>>::empty());
                return r;
            }
            let ps = split_chars(v.as_slice(), '\n');
            keep_trimmed(&ps)
        },
        Err(_) => {
            let r: Vec<String> = Vec::new();
            assert(string_views(r@) =~= Seq::<Seq<char>>::empty());
            r
        },
    }
}

/// The first two pieces of `p`, the second empty when missing.
pub open spec fn first_two(p: Seq<Seq<char>>) -> (Seq<char>, Seq<char>) {
    (p[0], if p.len() > 1 { p[1] } else { Seq::<char>::empty() })
}

/// The first two lines of `v` as strings.
fn two_lines(v: &[char]) -> (r: (String, String))
    ensures
        (r.0@, r.1@) == first_two(split(v@, '\n')),
{
    let p = split_chars(v, '\n');
    proof {
        crate::text::lemma_split_nonempty(v@, '\n');
    }
    assert(views(p@)[0] == p@[0]@);
    let a = string_of(p[0].as_slice());
    let b = if p.len() > 1 {
        assert(views(p@)[1] == p@[1]@);
        string_of(p[1].as_slice())
    } else {
        String::new()
    };
    (a, b)
}

/// The next track the Music window shows, when its reply names one: not
/// NO and not empty, the first line is the name and the second the artist.
pub fn up_next_from_window(reply: &Result<String, String>) -> (r: Option<(String, String)>)
    ensures
        (match r {
            Some(p) => Some((p.0@, p.1@)),
            None => None::<(Seq<char>, Seq<char>)>,
        }) == (match reply_view(*reply) {
            Ok(out) => if out != "NO"@ && out.len() > 0 {
                Some(first_two(split(out, '\n')))
            } else {
                None
            },
            Err(_) => None,
        }),
{
    match reply {
        Ok(out) => {
            let v = chars_of(out.as_str());
            if !is_text(v.as_slice(), "NO") && v.len() > 0 {
                Some(two_lines(v.as_slice()))
            } else {
                None
            }
        },
        Err(_) => None,
    }
}

/// The next track in the current playlist as its reply names it: NO,
/// nothing or a failed run name none (two empty strings).
pub fn fetch_up_next(reply: &Result<String, String>) -> (r: (String, String))
    ensures
        (r.0@, r.1@) == (match reply_view(*reply) {
            Ok(out) => if out == "NO"@ || out.len() == 0 {
                (Seq::<char>::empty(), Seq::<char>::empty())
            } else {
                first_two(split(out, '\n'))
            },
            Err(_) => (Seq::<char>::empty(), Seq::<char>::empty()),
        }),
{
    match reply {
        Ok(out) => {
            let v = chars_of(out.as_str());
            if is_text(v.as_slice(), "NO") || v.len() == 0 {
                (String::new(), String::new())
            } else {
                two_lines(v.as_slice())
            }
        },
        Err(_) => (String::new(), String::new()),
    }
}

/// A queue line: its first two tab-separated fields, name and artist.
pub open spec fn queue_entry(l: Seq<char>) -> Option<(Seq<char>, Seq<char>)> {
    let p = split(l, '\t');
    if p.len() >= 2 {
        Some((p[0], p[1]))
    } else {
        None
    }
}

/// The queue entries of the first `n` lines.
pub open spec fn queue_entries(ls: Seq<Seq<char>>, n: nat) -> Seq<(Seq<char>, Seq<char>)>
    decreases n,
{
    if n == 0 {
        Seq::<(Seq<char>, Seq<char>)>::empty()
    } else {
        let prev = queue_entries(ls, (n - 1) as nat);
        match queue_entry(ls[n - 1]) {
            Some(e) => prev.push(e),
            None => prev,
        }
    }
}

/// The queued tracks a reply lists, one `name\tartist` line each; lines
/// with fewer fields are skipped.
pub fn fetch_queue(reply: &Result<String, String>) -> (r: Vec<(String, String)>)
    ensures
        pair_views(r@) == (match reply_view(*reply) {
            Ok(out) => if out.len() == 0 {
                Seq::<(Seq<char>, Seq<char>)>::empty()
            } else {
                queue_entries(lines(out), lines(out).len())
            },
            Err(_) => Seq::<(Seq<char>, Seq<char>)>::empty(),
        }),
{
    let mut r: Vec<(String, String)> = Vec::new();
    assert(pair_views(r@) =~= Seq::<(Seq<char>, Seq<char>)>::empty());
    match reply {
        Ok(out) => {
            let v = chars_of(out.as_str());
            if v.len() == 0 {
                return r;
            }
            let ls = lines_of(v.as_slice());
            let mut i: usize = 0;
            while i < ls.len()
                invariant
                    i <= ls@.len(),
                    views(ls@) == lines(out@),
                    pair_views(r@) == queue_entries(views(ls@), i as nat),
                decreases ls@.len() - i,
            {
                let p = split_chars(ls[i].as_slice(), '\t');
                assert(views(ls@)[i as int] == ls@[i as int]@);
                if p.len() >= 2 {
                    assert(views(p@)[0] == p@[0]@);
                    assert(views(p@)[1] == p@[1]@);
                    let ghost before = pair_views(r@);
                    let e = (string_of(p[0].as_slice()), string_of(p[1].as_slice()));
                    r.push(e);
                    assert(pair_views(r@) =~= before.push((e.0@, e.1@)));
                }
                i = i + 1;
            }
            r
        },
        Err(_) => r,
    }
}

/// An AirPlay line: its first field is the device name, and the device is
/// selected when the second is `true`.
pub open spec fn device_entry(l: Seq<char>) -> Option<(Seq<char>, bool)> {
    let p = split(l, '\t');
    if p.len() >= 2 {
        Some((p[0], p[1] == "true"@))
    } else {
        None
    }
}

/// The devices of the first `n` lines.
pub open spec fn device_entries(ls: Seq<Seq<char>>, n: nat) -> Seq<(Seq<char>, bool)>
    decreases n,
{
    if n == 0 {
        Seq::<(Seq<char>, bool)>::empty()
    } else {
        let prev = device_entries(ls, (n - 1) as nat);
        match device_entry(ls[n - 1]) {
            Some(e) => prev.push(e),
            None => prev,
        }
    }
}

/// The views of some devices.
pub open spec fn device_views(v: Seq<(String, bool)>) -> Seq<(Seq<char>, bool)> {
    v.map_values(|p: (String, bool)| (p.0@, p.1))
}

/// The AirPlay devices a reply lists; NONE, nothing or a failed run list
/// none.
pub fn fetch_airplay_devices(reply: &Result<String, String>) -> (r: Vec<(String, bool)>)
    ensures
        device_views(r@) == (match reply_view(*reply) {
            Ok(out) => if out == "NONE"@ || out.len() == 0 {
                Seq::<(Seq<char>, bool)>::empty()
            } else {
                device_entries(lines(out), lines(out).len())
            },
            Err(_) => Seq::<(Seq<char>, bool)>::empty(),
        }),
{
    let mut r: Vec<(String, bool)> = Vec::new();
    assert(device_views(r@) =~= Seq::<(Seq<char>, bool)>::empty());
    match reply {
        Ok(out) => {
            let v = chars_of(out.as_str());
            if is_text(v.as_slice(), "NONE") || v.len() == 0 {
                return r;
            }
            let ls = lines_of(v.as_slice());
            let mut i: usize = 0;
            while i < ls.len()
                invariant
                    i <= ls@.len(),
                    views(ls@) == lines(out@),
                    device_views(r@) == device_entries(views(ls@), i as nat),
                decreases ls@.len() - i,
            {
                let p = split_chars(ls[i].as_slice(), '\t');
                assert(views(ls@)[i as int] == ls@[i as int]@);
                if p.len() >= 2 {
                    assert(views(p@)[0] == p@[0]@);
                    assert(views(p@)[1] == p@[1]@);
                    let ghost before = device_views(r@);
                    let e = (string_of(p[0].as_slice()), is_text(p[1].as_slice(), "true"));
                    r.push(e);
                    assert(device_views(r@) =~= before.push((e.0@, e.1)));
                }
                i = i + 1;
            }
            r
        },
        Err(_) => r,
    }
}

// ── Track listings ────────────────────────────────────────────────────

/// Where a listed track stands: its line number in a playlist listing,
/// the position text a library listing gave, or nothing.
#[derive(Clone, Debug, PartialEq)]
pub enum TrackIndex {
    Position(usize),
    Text(String),
    Absent,
}

/// A track as a listing reports it; the duration is number text (see
/// `number_text`) for the caller to read.
#[derive(Clone, Debug, PartialEq)]
pub struct TrackRow {
    pub name: String,
    pub artist: String,
    pub duration_text: String,
    pub index: TrackIndex,
}

/// Where a listed track stands, in spec terms.
pub ghost enum IndexView {
    Position(nat),
    Text(Seq<char>),
    Absent,
}

/// The fields of a listed track.
pub ghost struct RowView {
    pub name: Seq<char>,
    pub artist: Seq<char>,
    pub duration: Seq<char>,
    pub index: IndexView,
}

/// The fields of `r`.
pub open spec fn row_view(r: TrackRow) -> RowView {
    RowView {
        name: r.name@,
        artist: r.artist@,
        duration: r.duration_text@,
        index: match r.index {
            TrackIndex::Position(n) => IndexView::Position(n as nat),
            TrackIndex::Text(s) => IndexView::Text(s@),
            TrackIndex::Absent => IndexView::Absent,
        },
    }
}

/// The fields of some listed tracks.
pub open spec fn row_views(v: Seq<TrackRow>) -> Seq<RowView> {
    v.map_values(|r: TrackRow| row_view(r))
}

/// A playlist listing line `name\tartist\tduration`, at 1-based line
/// number `pos`; lines with fewer fields are skipped.
pub open spec fn playlist_row(l: Seq<char>, pos: nat) -> Option<RowView> {
    let p = split(l, '\t');
    if p.len() >= 3 {
        Some(RowView { name: p[0], artist: p[1], duration: p[2], index: IndexView::Position(pos) })
    } else {
        None
    }
}

/// The playlist tracks of the first `n` lines.
pub open spec fn playlist_rows(ls: Seq<Seq<char>>, n: nat) -> Seq<RowView>
    decreases n,
{
    if n == 0 {
        Seq::<RowView>::empty()
    } else {
        let prev = playlist_rows(ls, (n - 1) as nat);
        match playlist_row(ls[n - 1], n) {
            Some(e) => prev.push(e),
            None => prev,
        }
    }
}

/// A library listing line `name\tartist\tduration[\tposition]`.
pub open spec fn library_row(l: Seq<char>) -> Option<RowView> {
    let p = split(l, '\t');
    if p.len() >= 3 {
        Some(
            RowView {
                name: p[0],
                artist: p[1],
                duration: p[2],
                index: if p.len() > 3 {
                    IndexView::Text(p[3])
                } else {
                    IndexView::Absent
                },
            },
        )
    } else {
        None
    }
}

/// The library tracks of the first `n` lines.
pub open spec fn library_rows(ls: Seq<Seq<char>>, n: nat) -> Seq<RowView>
    decreases n,
{
    if n == 0 {
        Seq::<RowView>::empty()
    } else {
        let prev = library_rows(ls, (n - 1) as nat);
        match library_row(ls[n - 1]) {
            Some(e) => prev.push(e),
            None => prev,
        }
    }
}

/// The rows of a listing, empty for NONE, nothing or a failed run.
pub open spec fn listing_lines(reply: Result<Seq<char>, Seq<char>>) -> Seq<Seq<char>> {
    match reply {
        Ok(out) => if out == "NONE"@ || out.len() == 0 {
            Seq::<Seq<char>>::empty()
        } else {
            lines(out)
        },
        Err(_) => Seq::<Seq<char>>::empty(),
    }
}

/// The lines of a listing reply (see `listing_lines`).
fn listing_lines_of(reply: &Result<String, String>) -> (r: Vec<Vec<char>>)
    ensures
        views(r@) == listing_lines(reply_view(*reply)),
{
    match reply {
        Ok(out) => {
            let v = chars_of(out.as_str());
            if is_text(v.as_slice(), "NONE") || v.len() == 0 {
                let r: Vec<Vec<char>> = Vec::new();
                assert(views(r@) =~= Seq::<Seq<char>>::empty());
                r
            } else {
                lines_of(v.as_slice())
            }
        },
        Err(_) => {
            let r: Vec<Vec<char>> = Vec::new();
            assert(views(r@) =~= Seq::<Seq<char>>::empty());
            r
        },
    }
}

/// The tracks of a playlist a reply lists, each with its line number.
pub fn fetch_playlist_tracks(reply: &Result<String, String>) -> (r: Vec<TrackRow>)
    ensures
        row_views(r@) == playlist_rows(
            listing_lines(reply_view(*reply)),
            listing_lines(reply_view(*reply)).len(),
        ),
{
    let ls = listing_lines_of(reply);
    let mut r: Vec<TrackRow> = Vec::new();
    assert(row_views(r@) =~= Seq::<RowView>::empty());
    let mut i: usize = 0;
    while i < ls.len()
        invariant
            i <= ls@.len(),
            views(ls@) == listing_lines(reply_view(*reply)),
            row_views(r@) == playlist_rows(views(ls@), i as nat),
        decreases ls@.len() - i,
    {
        let p = split_chars(ls[i].as_slice(), '\t');
        assert(views(ls@)[i as int] == ls@[i as int]@);
        if p.len() >= 3 {
            assert(views(p@)[0] == p@[0]@);
            assert(views(p@)[1] == p@[1]@);
            assert(views(p@)[2] == p@[2]@);
            let ghost before = row_views(r@);
            let row = TrackRow {
                name: string_of(p[0].as_slice()),
                artist: string_of(p[1].as_slice()),
                duration_text: string_of(p[2].as_slice()),
                index: TrackIndex::Position(i + 1),
            };
            r.push(row);
            assert(row_views(r@) =~= before.push(row_view(row)));
        }
        i = i + 1;
    }
    r
}

/// The tracks of a library listing, with the position text each line
/// gives.
fn library_listing(reply: &Result<String, String>) -> (r: Vec<TrackRow>)
    ensures
        row_views(r@) == library_rows(
            listing_lines(reply_view(*reply)),
            listing_lines(reply_view(*reply)).len(),
        ),
{
    let ls = listing_lines_of(reply);
    let mut r: Vec<TrackRow> = Vec::new();
    assert(row_views(r@) =~= Seq::<RowView>::empty());
    let mut i: usize = 0;
    while i < ls.len()
        invariant
            i <= ls@.len(),
            views(ls@) == listing_lines(reply_view(*reply)),
            row_views(r@) == library_rows(views(ls@), i as nat),
        decreases ls@.len() - i,
    {
        let p = split_chars(ls[i].as_slice(), '\t');
        assert(views(ls@)[i as int] == ls@[i as int]@);
        if p.len() >= 3 {
            assert(views(p@)[0] == p@[0]@);
            assert(views(p@)[1] == p@[1]@);
            assert(views(p@)[2] == p@[2]@);
            let index = if p.len() > 3 {
                assert(views(p@)[3] == p@[3]@);
                TrackIndex::Text(string_of(p[3].as_slice()))
            } else {
                TrackIndex::Absent
            };
            let ghost before = row_views(r@);
            let row = TrackRow {
                name: string_of(p[0].as_slice()),
                artist: string_of(p[1].as_slice()),
                duration_text: string_of(p[2].as_slice()),
                index: index,
            };
            r.push(row);
            assert(row_views(r@) =~= before.push(row_view(row)));
        }
        i = i + 1;
    }
    r
}

/// The tracks of an artist a reply lists, each with the position the
/// listing gives it.
pub fn fetch_artist_tracks(reply: &Result<String, String>) -> (r: Vec<TrackRow>)
    ensures
        row_views(r@) == library_rows(
            listing_lines(reply_view(*reply)),
            listing_lines(reply_view(*reply)).len(),
        ),
{
    library_listing(reply)
}

/// The tracks a library search reply lists, each with the index the
/// listing gives it.
pub fn fetch_library_search(reply: &Result<String, String>) -> (r: Vec<TrackRow>)
    ensures
        row_views(r@) == library_rows(
            listing_lines(reply_view(*reply)),
            listing_lines(reply_view(*reply)).len(),
        ),
{
    library_listing(reply)
}

} // verus!

verus! {

/// The artist names a listing reply gives: its lines trimmed, blank ones
/// left out.
pub open spec fn artist_names(reply: Result<Seq<char>, Seq<char>>) -> Seq<Seq<char>> {
    nonempty_trimmed(listing_lines(reply), listing_lines(reply).len())
}

/// The lowercase forms of some names, the keys they are sorted by.
pub open spec fn lowercase_keys(names: Seq<Seq<char>>) -> Seq<Seq<char>> {
    names.map_values(|n: Seq<char>| str_lowercase(n))
}

/// The artists a reply lists, sorted by their lowercase forms, equal forms
/// in the order listed; NONE, nothing or a failed run list none.
pub fn fetch_artists(reply: &Result<String, String>) -> (r: Vec<String>)
    ensures
        exists|p: Seq<usize>|
            is_key_order(lowercase_keys(artist_names(reply_view(*reply))), p) && string_views(r@)
                == p.map_values(|i: usize| artist_names(reply_view(*reply))[i as int]),
{
    let ls = listing_lines_of(reply);
    let names = keep_trimmed(&ls);
    let ghost ns = artist_names(reply_view(*reply));
    assert(string_views(names@) == ns);
    let mut keys: Vec<Vec<char>> = Vec::new();
    let mut i: usize = 0;
    while i < names.len()
        invariant
            i <= names@.len(),
            string_views(names@) == ns,
            key_views(keys@) == lowercase_keys(ns).take(i as int),
        decreases names@.len() - i,
    {
        let l = lowercase(names[i].as_str());
        let k = chars_of(l.as_str());
        let ghost before = key_views(keys@);
        keys.push(k);
        assert(string_views(names@)[i as int] == names@[i as int]@);
        assert(key_views(keys@) =~= before.push(k@));
        assert(k@ == str_lowercase(ns[i as int]));
        assert(key_views(keys@) =~= lowercase_keys(ns).take(i + 1));
        i = i + 1;
    }
    assert(lowercase_keys(ns).take(i as int) =~= lowercase_keys(ns));
    let order = key_order(&keys);
    let mut r: Vec<String> = Vec::new();
    let mut j: usize = 0;
    while j < order.len()
        invariant
            j <= order@.len(),
            string_views(names@) == ns,
            names@.len() == ns.len(),
            is_key_order(lowercase_keys(ns), order@),
            lowercase_keys(ns).len() == ns.len(),
            string_views(r@) == order@.take(j as int).map_values(|i: usize| ns[i as int]),
        decreases order@.len() - j,
    {
        let idx = order[j];
        assert(string_views(names@)[idx as int] == names@[idx as int]@);
        let ghost before = string_views(r@);
        r.push(names[idx].clone());
        assert(string_views(r@) =~= before.push(ns[idx as int]));
        assert(string_views(r@) =~= order@.take(j + 1).map_values(|i: usize| ns[i as int]));
        j = j + 1;
    }
    assert(order@.take(j as int) =~= order@);
    r
}

} // verus!
