use vstd::prelude::*;
use crate::text::{trim, trim_str, uppercase, str_uppercase, chars_of, is_text, is_ws, lemma_trim_clean};
use crate::theme::{Theme, ThemeColor};

verus! {

/// What the Music app is doing.
#[derive(Clone, Copy, Debug, PartialEq, Eq, Structural)]
pub enum PlayerState {
    Playing,
    Paused,
    Stopped,
    NotRunning,
}

/// The state a player-state word stands for, once uppercased: PLAYING,
/// PAUSED and NOT_RUNNING are recognised, anything else means stopped.
pub open spec fn state_of_word(w: Seq<char>) -> PlayerState {
    if w == "PLAYING"@ {
        PlayerState::Playing
    } else if w == "PAUSED"@ {
        PlayerState::Paused
    } else if w == "NOT_RUNNING"@ {
        PlayerState::NotRunning
    } else {
        PlayerState::Stopped
    }
}

/// The state named by `s`: trimmed and uppercased, then read as above.
pub open spec fn parse_state(s: Seq<char>) -> PlayerState {
    state_of_word(str_uppercase(trim(s)))
}

/// The symbol shown for a state.
pub open spec fn state_icon(p: PlayerState) -> Seq<char> {
    match p {
        PlayerState::Playing => "▶"@,
        PlayerState::Paused => "⏸"@,
        PlayerState::Stopped => "⏹"@,
        PlayerState::NotRunning => "○"@,
    }
}

/// The words shown for a state.
pub open spec fn state_label(p: PlayerState) -> Seq<char> {
    match p {
        PlayerState::Playing => "Playing"@,
        PlayerState::Paused => "Paused"@,
        PlayerState::Stopped => "Stopped"@,
        PlayerState::NotRunning => "Not Running"@,
    }
}

/// The badge shown for a state at the right of the header.
pub open spec fn state_badge(p: PlayerState) -> Seq<char> {
    match p {
        PlayerState::Playing => " ● playing "@,
        PlayerState::Paused => " ⏸ paused "@,
        PlayerState::Stopped => " ⏹ stopped "@,
        PlayerState::NotRunning => " ○ not running "@,
    }
}

/// The colour a state is drawn in: green when playing, yellow when paused,
/// dim otherwise.
pub open spec fn state_color(p: PlayerState, theme: Theme) -> ThemeColor {
    match p {
        PlayerState::Playing => theme.green,
        PlayerState::Paused => theme.yellow,
        _ => theme.dim,
    }
}

impl PlayerState {
    /// Reads a player state from the Music app's words for it, ignoring
    /// case and surrounding white space.
    pub fn from_str(s: &str) -> (r: PlayerState)
        ensures
            r == parse_state(s@),
    {
        let t = trim_str(s);
        let ts = crate::text::string_of(t.as_slice());
        let u = uppercase(ts.as_str());
        let w = chars_of(u.as_str());
        PlayerState::from_word(w.as_slice())
    }

    /// Reads an uppercased player-state word (see `state_of_word`).
    pub fn from_word(w: &[char]) -> (r: PlayerState)
        ensures
            r == state_of_word(w@),
    {
        if is_text(w, "PLAYING") {
            PlayerState::Playing
        } else if is_text(w, "PAUSED") {
            PlayerState::Paused
        } else if is_text(w, "NOT_RUNNING") {
            PlayerState::NotRunning
        } else {
            PlayerState::Stopped
        }
    }

    /// The symbol for this state.
    pub fn icon(&self) -> (r: &'static str)
        ensures
            r@ == state_icon(*self),
    {
        match self {
            PlayerState::Playing => "▶",
            PlayerState::Paused => "⏸",
            PlayerState::Stopped => "⏹",
            PlayerState::NotRunning => "○",
        }
    }

    /// The name of this state.
    pub fn label(&self) -> (r: &'static str)
        ensures
            r@ == state_label(*self),
    {
        match self {
            PlayerState::Playing => "Playing",
            PlayerState::Paused => "Paused",
            PlayerState::Stopped => "Stopped",
            PlayerState::NotRunning => "Not Running",
        }
    }

    /// The header badge for this state.
    pub fn badge(&self) -> (r: &'static str)
        ensures
            r@ == state_badge(*self),
    {
        match self {
            PlayerState::Playing => " ● playing ",
            PlayerState::Paused => " ⏸ paused ",
            PlayerState::Stopped => " ⏹ stopped ",
            PlayerState::NotRunning => " ○ not running ",
        }
    }

    /// The colour of this state in `theme`.
    pub fn color(&self, theme: &Theme) -> (r: ThemeColor)
        ensures
            r == state_color(*self, *theme),
    {
        match self {
            PlayerState::Playing => theme.green,
            PlayerState::Paused => theme.yellow,
            _ => theme.dim,
        }
    }

    /// Whether the position can be moved: only while a track is playing or
    /// paused.
    pub fn can_seek(&self) -> (r: bool)
        ensures
            r == (*self == PlayerState::Playing || *self == PlayerState::Paused),
    {
        match self {
            PlayerState::Playing | PlayerState::Paused => true,
            _ => false,
        }
    }
}

/// The ASCII uppercase form of `s`: each of `a`–`z` becomes its capital,
/// everything else stays.
pub open spec fn ascii_upper(s: Seq<char>) -> Seq<char> {
    s.map_values(|c: char| if 'a' <= c && c <= 'z' { ((c as u32) - 32) as char } else { c })
}

/// Reading a state's label back gives the state again, except for "Not
/// Running": its uppercase form "NOT RUNNING" is not the word NOT_RUNNING,
/// so it reads as stopped. Stated where `to_uppercase` maps the label's
/// letters as ASCII does.
pub proof fn law_label_read_back(p: PlayerState)
    requires
        str_uppercase(state_label(p)) == ascii_upper(state_label(p)),
    ensures
        parse_state(state_label(p)) == (if p == PlayerState::NotRunning {
            PlayerState::Stopped
        } else {
            p
        }),
{
    broadcast use vstd::utf8::char_u32_cast;
    reveal_strlit("Playing");
    reveal_strlit("Paused");
    reveal_strlit("Stopped");
    reveal_strlit("Not Running");
    reveal_strlit("PLAYING");
    reveal_strlit("PAUSED");
    reveal_strlit("NOT_RUNNING");
    let l = state_label(p);
    assert(!is_ws(l[0]) && !is_ws(l.last()));
    lemma_trim_clean(l);
    let u = ascii_upper(l);
    match p {
        PlayerState::Playing => {
            assert(u =~= "PLAYING"@);
        },
        PlayerState::Paused => {
            assert(u =~= "PAUSED"@);
        },
        PlayerState::Stopped => {
            assert(u[0] == 'S');
            assert(u != "PLAYING"@);
            assert(u != "PAUSED"@);
            assert(u != "NOT_RUNNING"@);
        },
        PlayerState::NotRunning => {
            assert(u[3] == ' ');
            assert("NOT_RUNNING"@[3] == '_');
            assert(u != "PLAYING"@);
            assert(u != "PAUSED"@);
            assert(u != "NOT_RUNNING"@);
        },
    }
}

} // verus!
