use vstd::prelude::*;

verus! {

/// Bundled JSON source of the light theme configuration.
pub const LIGHT_CONFIG: &'static str = r##"{
  "name": "HyperOS 4 Soft Glass Light",
  "mode": "light",
  "colors": {
    "background": "#f3f6fb",
    "foreground": "#18202c",
    "border": "#d7dfea",
    "primary.background": "#3482ff",
    "primary.foreground": "#ffffff",
    "muted.background": "#e9eef6",
    "muted.foreground": "#5b6677",
    "accent.background": "#e3ecfb",
    "accent.foreground": "#18202c",
    "card.background": "#f8fafdcc",
    "popover.background": "#f8fafde6",
    "ring": "#3482ff"
  }
}"##;

/// Bundled JSON source of the dark theme configuration.
pub const DARK_CONFIG: &'static str = r##"{
  "name": "HyperOS 4 Soft Glass Dark",
  "mode": "dark",
  "colors": {
    "background": "#10141b",
    "foreground": "#e5eaf2",
    "border": "#28313f",
    "primary.background": "#5a9bff",
    "primary.foreground": "#0b1018",
    "muted.background": "#1a212c",
    "muted.foreground": "#94a0b3",
    "accent.background": "#1d2736",
    "accent.foreground": "#e5eaf2",
    "card.background": "#171d27cc",
    "popover.background": "#171d27e6",
    "ring": "#5a9bff"
  }
}"##;

/// Whether a theme is light or dark.
#[derive(Clone, Copy, Debug, PartialEq, Eq, Structural)]
pub enum ThemeMode {
    Light,
    Dark,
}

impl ThemeMode {
    /// `true` exactly for [`ThemeMode::Dark`].
    pub fn is_dark(&self) -> (r: bool)
        ensures
            r == (*self == ThemeMode::Dark),
    {
        match self {
            ThemeMode::Light => false,
            ThemeMode::Dark => true,
        }
    }
}

/// The bundled configuration source that belongs to `mode`.
pub open spec fn bundled_config(mode: ThemeMode) -> Seq<char> {
    if mode == ThemeMode::Dark {
        DARK_CONFIG@
    } else {
        LIGHT_CONFIG@
    }
}

/// HyperOS 4 soft-light theme entry points.
pub struct HyperOs4Theme;

impl HyperOs4Theme {
    /// The raw JSON source of the light theme, for consumers that want to
    /// register it in a theme registry or persist it next to other themes.
    pub fn light_source() -> (s: &'static str)
        ensures
            s@ == LIGHT_CONFIG@,
    {
        LIGHT_CONFIG
    }

    /// The raw JSON source of the dark theme, for consumers that want to
    /// register it in a theme registry or persist it next to other themes.
    pub fn dark_source() -> (s: &'static str)
        ensures
            s@ == DARK_CONFIG@,
    {
        DARK_CONFIG
    }

    /// The JSON source of the configuration that matches `mode`: the dark
    /// source for a dark mode, the light source otherwise.
    pub fn config_source(mode: ThemeMode) -> (s: &'static str)
        ensures
            s@ == bundled_config(mode),
    {
        if mode.is_dark() {
            Self::dark_source()
        } else {
            Self::light_source()
        }
    }
}

/// `part` occurs somewhere in `text` as a contiguous run of characters.
pub open spec fn contains_text(text: Seq<char>, part: Seq<char>) -> bool {
    exists|i: int|
        0 <= i && i + part.len() <= text.len() && #[trigger] text.subrange(i, i + part.len())
            == part
}

/// The JSON entry that names the bundled configuration of `mode`.
pub open spec fn name_entry(mode: ThemeMode) -> Seq<char> {
    if mode == ThemeMode::Dark {
        "\"name\": \"HyperOS 4 Soft Glass Dark\""@
    } else {
        "\"name\": \"HyperOS 4 Soft Glass Light\""@
    }
}

/// The JSON entry that declares `mode` in a theme configuration.
pub open spec fn mode_entry(mode: ThemeMode) -> Seq<char> {
    if mode == ThemeMode::Dark {
        "\"mode\": \"dark\""@
    } else {
        "\"mode\": \"light\""@
    }
}

/// Unfolds the two bundled texts and records where their name and mode
/// entries stand.
proof fn lemma_bundled_texts()
    ensures
        LIGHT_CONFIG@.len() != DARK_CONFIG@.len(),
        LIGHT_CONFIG@.len() >= 59,
        DARK_CONFIG@.len() >= 57,
        name_entry(ThemeMode::Light).len() == 36,
        name_entry(ThemeMode::Dark).len() == 35,
        mode_entry(ThemeMode::Light).len() == 15,
        mode_entry(ThemeMode::Dark).len() == 14,
        LIGHT_CONFIG@.subrange(4, 4int + name_entry(ThemeMode::Light).len())
            == name_entry(ThemeMode::Light),
        LIGHT_CONFIG@.subrange(44, 44int + mode_entry(ThemeMode::Light).len())
            == mode_entry(ThemeMode::Light),
        DARK_CONFIG@.subrange(4, 4int + name_entry(ThemeMode::Dark).len())
            == name_entry(ThemeMode::Dark),
        DARK_CONFIG@.subrange(43, 43int + mode_entry(ThemeMode::Dark).len())
            == mode_entry(ThemeMode::Dark),
{
    // `reveal_strlit` takes the literal itself: these are the texts of
    // `LIGHT_CONFIG` and `DARK_CONFIG`, and the proof fails if they drift.
    reveal_strlit(r##"{
  "name": "HyperOS 4 Soft Glass Light",
  "mode": "light",
  "colors": {
    "background": "#f3f6fb",
    "foreground": "#18202c",
    "border": "#d7dfea",
    "primary.background": "#3482ff",
    "primary.foreground": "#ffffff",
    "muted.background": "#e9eef6",
    "muted.foreground": "#5b6677",
    "accent.background": "#e3ecfb",
    "accent.foreground": "#18202c",
    "card.background": "#f8fafdcc",
    "popover.background": "#f8fafde6",
    "ring": "#3482ff"
  }
}"##);
    reveal_strlit(r##"{
  "name": "HyperOS 4 Soft Glass Dark",
  "mode": "dark",
  "colors": {
    "background": "#10141b",
    "foreground": "#e5eaf2",
    "border": "#28313f",
    "primary.background": "#5a9bff",
    "primary.foreground": "#0b1018",
    "muted.background": "#1a212c",
    "muted.foreground": "#94a0b3",
    "accent.background": "#1d2736",
    "accent.foreground": "#e5eaf2",
    "card.background": "#171d27cc",
    "popover.background": "#171d27e6",
    "ring": "#5a9bff"
  }
}"##);
    assert(LIGHT_CONFIG@.len() != DARK_CONFIG@.len());
    reveal_strlit("\"name\": \"HyperOS 4 Soft Glass Dark\"");
    reveal_strlit("\"name\": \"HyperOS 4 Soft Glass Light\"");
    reveal_strlit("\"mode\": \"dark\"");
    reveal_strlit("\"mode\": \"light\"");
    assert(LIGHT_CONFIG@.subrange(4, 40) =~= name_entry(ThemeMode::Light));
    assert(LIGHT_CONFIG@.subrange(44, 59) =~= mode_entry(ThemeMode::Light));
    assert(DARK_CONFIG@.subrange(4, 39) =~= name_entry(ThemeMode::Dark));
    assert(DARK_CONFIG@.subrange(43, 57) =~= mode_entry(ThemeMode::Dark));
}

/// Distinct theme modes select distinct configuration sources: the light and
/// dark configurations are never the same document.
pub proof fn lemma_config_source_distinguishes_modes(a: ThemeMode, b: ThemeMode)
    requires
        a != b,
    ensures
        bundled_config(a) != bundled_config(b),
{
    lemma_bundled_texts();
}

/// The configuration bundled for a mode carries that mode's theme name and
/// declares that very mode.
pub proof fn lemma_bundled_config_declares_its_mode(mode: ThemeMode)
    ensures
        contains_text(bundled_config(mode), name_entry(mode)),
        contains_text(bundled_config(mode), mode_entry(mode)),
{
    lemma_bundled_texts();
    if mode == ThemeMode::Dark {
        assert(bundled_config(mode).subrange(4, 4int + name_entry(mode).len()) == name_entry(mode));
        assert(bundled_config(mode).subrange(43, 43int + mode_entry(mode).len()) == mode_entry(mode));
    } else {
        assert(bundled_config(mode).subrange(4, 4int + name_entry(mode).len()) == name_entry(mode));
        assert(bundled_config(mode).subrange(44, 44int + mode_entry(mode).len()) == mode_entry(mode));
    }
}

} // verus!
