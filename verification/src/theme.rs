use vstd::prelude::*;
use crate::text::{chars_of, lines, lines_of, views, trim, trim_chars, starts_with, has_prefix, skip_chars, is_text, append_str, string_of, lemma_lines_single, lemma_trim_clean};

verus! {

/// The colour themes the interface can be drawn in.
#[derive(Clone, Copy, Debug, PartialEq, Eq, Structural)]
pub enum ThemeName {
    Default,
    Dracula,
    Catppuccin,
    Nord,
    Gruvbox,
}

/// The theme that follows `t` in the cycle Default, Dracula, Catppuccin, Nord, Gruvbox.
pub open spec fn next_theme(t: ThemeName) -> ThemeName {
    match t {
        ThemeName::Default => ThemeName::Dracula,
        ThemeName::Dracula => ThemeName::Catppuccin,
        ThemeName::Catppuccin => ThemeName::Nord,
        ThemeName::Nord => ThemeName::Gruvbox,
        ThemeName::Gruvbox => ThemeName::Default,
    }
}

/// The name a theme is shown and stored under.
pub open spec fn theme_label(t: ThemeName) -> Seq<char> {
    match t {
        ThemeName::Default => "Default"@,
        ThemeName::Dracula => "Dracula"@,
        ThemeName::Catppuccin => "Catppuccin"@,
        ThemeName::Nord => "Nord"@,
        ThemeName::Gruvbox => "Gruvbox"@,
    }
}

impl ThemeName {
    /// The theme's display name.
    pub fn label(&self) -> (r: &'static str)
        ensures
            r@ == theme_label(*self),
    {
        match self {
            ThemeName::Default => "Default",
            ThemeName::Dracula => "Dracula",
            ThemeName::Catppuccin => "Catppuccin",
            ThemeName::Nord => "Nord",
            ThemeName::Gruvbox => "Gruvbox",
        }
    }

    /// The next theme in the cycle.
    pub fn next(&self) -> (r: ThemeName)
        ensures
            r == next_theme(*self),
    {
        match self {
            ThemeName::Default => ThemeName::Dracula,
            ThemeName::Dracula => ThemeName::Catppuccin,
            ThemeName::Catppuccin => ThemeName::Nord,
            ThemeName::Nord => ThemeName::Gruvbox,
            ThemeName::Gruvbox => ThemeName::Default,
        }
    }
}

} // verus!

verus! {

/// A colour of the interface: a fixed RGB value or the terminal's own.
#[derive(Clone, Copy, Debug, PartialEq, Eq, Structural)]
pub enum ThemeColor {
    Rgb(u8, u8, u8),
    Reset,
}

/// The colours of a theme, by role.
#[derive(Clone, Copy, Debug, PartialEq, Eq, Structural)]
pub struct Theme {
    pub accent: ThemeColor,
    pub green: ThemeColor,
    pub yellow: ThemeColor,
    pub red: ThemeColor,
    pub dim: ThemeColor,
    pub surface: ThemeColor,
    pub surface_light: ThemeColor,
    pub text: ThemeColor,
    pub text_dim: ThemeColor,
    pub border: ThemeColor,
    pub highlight_bg: ThemeColor,
}

/// The palette of each theme.
pub open spec fn palette(t: ThemeName) -> Theme {
    match t {
        ThemeName::Default => Theme {
            accent: ThemeColor::Rgb(100, 180, 255),
            green: ThemeColor::Rgb(80, 220, 130),
            yellow: ThemeColor::Rgb(240, 200, 80),
            red: ThemeColor::Rgb(240, 90, 90),
            dim: ThemeColor::Rgb(100, 100, 115),
            surface: ThemeColor::Reset,
            surface_light: ThemeColor::Reset,
            text: ThemeColor::Rgb(220, 220, 230),
            text_dim: ThemeColor::Rgb(140, 140, 155),
            border: ThemeColor::Rgb(55, 55, 70),
            highlight_bg: ThemeColor::Rgb(60, 60, 80),
        },
        ThemeName::Dracula => Theme {
            accent: ThemeColor::Rgb(189, 147, 249),
            green: ThemeColor::Rgb(80, 250, 123),
            yellow: ThemeColor::Rgb(241, 250, 140),
            red: ThemeColor::Rgb(255, 85, 85),
            dim: ThemeColor::Rgb(98, 114, 164),
            surface: ThemeColor::Reset,
            surface_light: ThemeColor::Reset,
            text: ThemeColor::Rgb(248, 248, 242),
            text_dim: ThemeColor::Rgb(98, 114, 164),
            border: ThemeColor::Rgb(68, 71, 90),
            highlight_bg: ThemeColor::Rgb(68, 71, 90),
        },
        ThemeName::Catppuccin => Theme {
            accent: ThemeColor::Rgb(137, 180, 250),
            green: ThemeColor::Rgb(166, 227, 161),
            yellow: ThemeColor::Rgb(249, 226, 175),
            red: ThemeColor::Rgb(243, 139, 168),
            dim: ThemeColor::Rgb(108, 112, 134),
            surface: ThemeColor::Reset,
            surface_light: ThemeColor::Reset,
            text: ThemeColor::Rgb(205, 214, 244),
            text_dim: ThemeColor::Rgb(147, 153, 178),
            border: ThemeColor::Rgb(69, 71, 90),
            highlight_bg: ThemeColor::Rgb(49, 50, 68),
        },
        ThemeName::Nord => Theme {
            accent: ThemeColor::Rgb(136, 192, 208),
            green: ThemeColor::Rgb(163, 190, 140),
            yellow: ThemeColor::Rgb(235, 203, 139),
            red: ThemeColor::Rgb(191, 97, 106),
            dim: ThemeColor::Rgb(76, 86, 106),
            surface: ThemeColor::Reset,
            surface_light: ThemeColor::Reset,
            text: ThemeColor::Rgb(236, 239, 244),
            text_dim: ThemeColor::Rgb(129, 161, 193),
            border: ThemeColor::Rgb(67, 76, 94),
            highlight_bg: ThemeColor::Rgb(67, 76, 94),
        },
        ThemeName::Gruvbox => Theme {
            accent: ThemeColor::Rgb(131, 165, 152),
            green: ThemeColor::Rgb(184, 187, 38),
            yellow: ThemeColor::Rgb(250, 189, 47),
            red: ThemeColor::Rgb(251, 73, 52),
            dim: ThemeColor::Rgb(146, 131, 116),
            surface: ThemeColor::Reset,
            surface_light: ThemeColor::Reset,
            text: ThemeColor::Rgb(235, 219, 178),
            text_dim: ThemeColor::Rgb(168, 153, 132),
            border: ThemeColor::Rgb(80, 73, 69),
            highlight_bg: ThemeColor::Rgb(80, 73, 69),
        },
    }
}

impl ThemeName {
    /// The colours of this theme.
    pub fn theme(&self) -> (r: Theme)
        ensures
            r == palette(*self),
    {
        match self {
            ThemeName::Default => Theme {
                accent: ThemeColor::Rgb(100, 180, 255),
                green: ThemeColor::Rgb(80, 220, 130),
                yellow: ThemeColor::Rgb(240, 200, 80),
                red: ThemeColor::Rgb(240, 90, 90),
                dim: ThemeColor::Rgb(100, 100, 115),
                surface: ThemeColor::Reset,
                surface_light: ThemeColor::Reset,
                text: ThemeColor::Rgb(220, 220, 230),
                text_dim: ThemeColor::Rgb(140, 140, 155),
                border: ThemeColor::Rgb(55, 55, 70),
                highlight_bg: ThemeColor::Rgb(60, 60, 80),
            },
            ThemeName::Dracula => Theme {
                accent: ThemeColor::Rgb(189, 147, 249),
                green: ThemeColor::Rgb(80, 250, 123),
                yellow: ThemeColor::Rgb(241, 250, 140),
                red: ThemeColor::Rgb(255, 85, 85),
                dim: ThemeColor::Rgb(98, 114, 164),
                surface: ThemeColor::Reset,
                surface_light: ThemeColor::Reset,
                text: ThemeColor::Rgb(248, 248, 242),
                text_dim: ThemeColor::Rgb(98, 114, 164),
                border: ThemeColor::Rgb(68, 71, 90),
                highlight_bg: ThemeColor::Rgb(68, 71, 90),
            },
            ThemeName::Catppuccin => Theme {
                accent: ThemeColor::Rgb(137, 180, 250),
                green: ThemeColor::Rgb(166, 227, 161),
                yellow: ThemeColor::Rgb(249, 226, 175),
                red: ThemeColor::Rgb(243, 139, 168),
                dim: ThemeColor::Rgb(108, 112, 134),
                surface: ThemeColor::Reset,
                surface_light: ThemeColor::Reset,
                text: ThemeColor::Rgb(205, 214, 244),
                text_dim: ThemeColor::Rgb(147, 153, 178),
                border: ThemeColor::Rgb(69, 71, 90),
                highlight_bg: ThemeColor::Rgb(49, 50, 68),
            },
            ThemeName::Nord => Theme {
                accent: ThemeColor::Rgb(136, 192, 208),
                green: ThemeColor::Rgb(163, 190, 140),
                yellow: ThemeColor::Rgb(235, 203, 139),
                red: ThemeColor::Rgb(191, 97, 106),
                dim: ThemeColor::Rgb(76, 86, 106),
                surface: ThemeColor::Reset,
                surface_light: ThemeColor::Reset,
                text: ThemeColor::Rgb(236, 239, 244),
                text_dim: ThemeColor::Rgb(129, 161, 193),
                border: ThemeColor::Rgb(67, 76, 94),
                highlight_bg: ThemeColor::Rgb(67, 76, 94),
            },
            ThemeName::Gruvbox => Theme {
                accent: ThemeColor::Rgb(131, 165, 152),
                green: ThemeColor::Rgb(184, 187, 38),
                yellow: ThemeColor::Rgb(250, 189, 47),
                red: ThemeColor::Rgb(251, 73, 52),
                dim: ThemeColor::Rgb(146, 131, 116),
                surface: ThemeColor::Reset,
                surface_light: ThemeColor::Reset,
                text: ThemeColor::Rgb(235, 219, 178),
                text_dim: ThemeColor::Rgb(168, 153, 132),
                border: ThemeColor::Rgb(80, 73, 69),
                highlight_bg: ThemeColor::Rgb(80, 73, 69),
            },
        }
    }
}

/// Cycling through the themes comes back to the start after five steps,
/// and no earlier: every theme is reached.
pub proof fn law_theme_cycle(t: ThemeName)
    ensures
        next_theme(next_theme(next_theme(next_theme(next_theme(t))))) == t,
        next_theme(t) != t,
        next_theme(next_theme(t)) != t,
        next_theme(next_theme(next_theme(t))) != t,
        next_theme(next_theme(next_theme(next_theme(t)))) != t,
{
}

/// Every theme draws on the terminal's own background.
pub proof fn law_theme_background(t: ThemeName)
    ensures
        palette(t).surface == ThemeColor::Reset,
        palette(t).surface_light == ThemeColor::Reset,
{
}

} // verus!

verus! {

/// The theme a stored name stands for; anything unknown is the default.
pub open spec fn theme_named(v: Seq<char>) -> ThemeName {
    if v == "Dracula"@ {
        ThemeName::Dracula
    } else if v == "Catppuccin"@ {
        ThemeName::Catppuccin
    } else if v == "Nord"@ {
        ThemeName::Nord
    } else if v == "Gruvbox"@ {
        ThemeName::Gruvbox
    } else {
        ThemeName::Default
    }
}

/// The theme a configuration file names: the first line that, trimmed,
/// starts with `theme=` decides, by the trimmed rest of it; without such a
/// line, the default.
pub open spec fn config_theme(ls: Seq<Seq<char>>) -> ThemeName
    decreases ls.len(),
{
    if ls.len() == 0 {
        ThemeName::Default
    } else {
        let l = trim(ls[0]);
        if starts_with(l, "theme="@) {
            theme_named(trim(l.skip(6)))
        } else {
            config_theme(ls.drop_first())
        }
    }
}

/// The theme named by the text of a configuration file.
pub fn theme_from_config(content: &str) -> (r: ThemeName)
    ensures
        r == config_theme(lines(content@)),
{
    let cv = chars_of(content);
    let ls = lines_of(cv.as_slice());
    let mut i: usize = 0;
    proof {
        reveal_strlit("theme=");
    }
    assert(lines(content@).skip(0) =~= lines(content@));
    while i < ls.len()
        invariant
            i <= ls@.len(),
            views(ls@) == lines(content@),
            config_theme(lines(content@)) == config_theme(lines(content@).skip(i as int)),
        decreases ls@.len() - i,
    {
        let l = trim_chars(ls[i].as_slice());
        assert(views(ls@)[i as int] == ls@[i as int]@);
        assert(lines(content@).skip(i as int).drop_first() =~= lines(content@).skip(i + 1));
        if has_prefix(l.as_slice(), "theme=") {
            proof {
                reveal_strlit("theme=");
            }
            let rest = skip_chars(l.as_slice(), 6);
            let v = trim_chars(rest.as_slice());
            return theme_by_name(v.as_slice());
        }
        i = i + 1;
    }
    assert(lines(content@).skip(i as int) =~= Seq::<Seq<char>>::empty());
    ThemeName::Default
}

/// The theme a stored name stands for.
pub fn theme_by_name(v: &[char]) -> (r: ThemeName)
    ensures
        r == theme_named(v@),
{
    if is_text(v, "Dracula") {
        ThemeName::Dracula
    } else if is_text(v, "Catppuccin") {
        ThemeName::Catppuccin
    } else if is_text(v, "Nord") {
        ThemeName::Nord
    } else if is_text(v, "Gruvbox") {
        ThemeName::Gruvbox
    } else {
        ThemeName::Default
    }
}

/// The configuration file text that records `t`.
pub open spec fn config_text(t: ThemeName) -> Seq<char> {
    "theme="@ + theme_label(t) + "\n"@
}

/// The text to store in the configuration file for `theme`.
pub fn config_contents(theme: ThemeName) -> (r: String)
    ensures
        r@ == config_text(theme),
{
    let mut v: Vec<char> = Vec::new();
    append_str(&mut v, "theme=");
    append_str(&mut v, theme.label());
    append_str(&mut v, "\n");
    string_of(v.as_slice())
}

/// Reading back a stored configuration gives the theme that was stored.
pub proof fn law_config_roundtrip(t: ThemeName)
    ensures
        config_theme(lines(config_text(t))) == t,
{
    reveal_strlit("theme=");
    reveal_strlit("\n");
    reveal_strlit("Default");
    reveal_strlit("Dracula");
    reveal_strlit("Catppuccin");
    reveal_strlit("Nord");
    reveal_strlit("Gruvbox");
    let lab = theme_label(t);
    let l = "theme="@ + lab;
    assert(config_text(t) =~= l.push('\n'));
    assert(!l.contains('\n')) by {
        if l.contains('\n') {
            let k = choose|k: int| 0 <= k < l.len() && l[k] == '\n';
            if k < 6 {
                assert(l[k] == "theme="@[k]);
            } else {
                assert(l[k] == lab[k - 6]);
            }
        }
    }
    assert(l.last() == lab.last());
    lemma_lines_single(l);
    let ls = lines(config_text(t));
    assert(ls =~= seq![l]);
    assert(l[0] == 't');
    lemma_trim_clean(l);
    assert(l.take(6) =~= "theme="@);
    assert(l.skip(6) =~= lab);
    lemma_trim_clean(lab);
}

} // verus!
