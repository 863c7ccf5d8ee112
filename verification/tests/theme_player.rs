use musictui::player::PlayerState;
use musictui::theme::{config_contents, theme_from_config, ThemeColor, ThemeName};

const ALL: [ThemeName; 5] = [
    ThemeName::Default,
    ThemeName::Dracula,
    ThemeName::Catppuccin,
    ThemeName::Nord,
    ThemeName::Gruvbox,
];

#[test]
fn theme_labels() {
    assert_eq!(ThemeName::Default.label(), "Default");
    assert_eq!(ThemeName::Dracula.label(), "Dracula");
    assert_eq!(ThemeName::Catppuccin.label(), "Catppuccin");
    assert_eq!(ThemeName::Nord.label(), "Nord");
    assert_eq!(ThemeName::Gruvbox.label(), "Gruvbox");
}

#[test]
fn theme_next_cycles_through_all() {
    assert_eq!(ThemeName::Default.next(), ThemeName::Dracula);
    assert_eq!(ThemeName::Gruvbox.next(), ThemeName::Default);
    for t in ALL {
        let mut u = t;
        for _ in 0..5 {
            u = u.next();
        }
        assert_eq!(u, t);
        assert_ne!(t.next(), t);
    }
}

#[test]
fn theme_palettes() {
    let d = ThemeName::Default.theme();
    assert_eq!(d.accent, ThemeColor::Rgb(100, 180, 255));
    assert_eq!(d.highlight_bg, ThemeColor::Rgb(60, 60, 80));
    let n = ThemeName::Nord.theme();
    assert_eq!(n.red, ThemeColor::Rgb(191, 97, 106));
    for t in ALL {
        assert_eq!(t.theme().surface, ThemeColor::Reset);
        assert_eq!(t.theme().surface_light, ThemeColor::Reset);
    }
}

#[test]
fn config_roundtrip() {
    for t in ALL {
        let text = config_contents(t);
        assert_eq!(text, format!("theme={}\n", t.label()));
        assert_eq!(theme_from_config(&text), t);
    }
}

#[test]
fn config_parsing() {
    assert_eq!(theme_from_config(""), ThemeName::Default);
    assert_eq!(theme_from_config("# nothing\nfoo=bar\n"), ThemeName::Default);
    assert_eq!(theme_from_config("  theme=  Nord  \n"), ThemeName::Nord);
    assert_eq!(theme_from_config("x=1\r\ntheme=Gruvbox\r\ntheme=Nord\n"), ThemeName::Gruvbox);
    assert_eq!(theme_from_config("theme=Solarized\ntheme=Nord"), ThemeName::Default);
    assert_eq!(theme_from_config("theme=dracula"), ThemeName::Default);
}

#[test]
fn player_state_from_words() {
    assert_eq!(PlayerState::from_str("playing"), PlayerState::Playing);
    assert_eq!(PlayerState::from_str("  PAUSED \n"), PlayerState::Paused);
    assert_eq!(PlayerState::from_str("not_running"), PlayerState::NotRunning);
    assert_eq!(PlayerState::from_str("stopped"), PlayerState::Stopped);
    assert_eq!(PlayerState::from_str("fast forwarding"), PlayerState::Stopped);
    assert_eq!(PlayerState::from_str(""), PlayerState::Stopped);
}

#[test]
fn player_state_display() {
    assert_eq!(PlayerState::Playing.icon(), "▶");
    assert_eq!(PlayerState::Paused.icon(), "⏸");
    assert_eq!(PlayerState::Stopped.icon(), "⏹");
    assert_eq!(PlayerState::NotRunning.icon(), "○");
    assert_eq!(PlayerState::NotRunning.label(), "Not Running");
    assert_eq!(PlayerState::Paused.label(), "Paused");
    assert_eq!(PlayerState::Playing.badge(), " ● playing ");
    let th = ThemeName::Default.theme();
    assert_eq!(PlayerState::Playing.color(&th), th.green);
    assert_eq!(PlayerState::Paused.color(&th), th.yellow);
    assert_eq!(PlayerState::Stopped.color(&th), th.dim);
    assert!(PlayerState::Paused.can_seek());
    assert!(!PlayerState::NotRunning.can_seek());
}

#[test]
fn state_words_are_read_after_uppercasing() {
    let w = |s: &str| s.chars().collect::<Vec<char>>();
    assert_eq!(PlayerState::from_word(&w("PLAYING")), PlayerState::Playing);
    assert_eq!(PlayerState::from_word(&w("PAUSED")), PlayerState::Paused);
    assert_eq!(PlayerState::from_word(&w("NOT_RUNNING")), PlayerState::NotRunning);
    assert_eq!(PlayerState::from_word(&w("playing")), PlayerState::Stopped);
    assert_eq!(PlayerState::from_word(&w("")), PlayerState::Stopped);
}

#[test]
fn labels_read_back_as_their_states() {
    for p in [PlayerState::Playing, PlayerState::Paused, PlayerState::Stopped] {
        assert_eq!(PlayerState::from_str(p.label()), p);
    }
    assert_eq!(PlayerState::from_str(PlayerState::NotRunning.label()), PlayerState::Stopped);
}
