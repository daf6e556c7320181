//! Colour themes and the persisted configuration.
use vstd::prelude::*;

verus! {

#[derive(Clone, Copy, Debug, PartialEq, Eq, Structural, Hash)]
pub enum ThemeName {
    Dayroll,
    Nord,
    Gruvbox,
    TokyoNight,
}

/// Position of a theme in the cycle.
pub open spec fn theme_index(t: ThemeName) -> int {
    match t {
        ThemeName::Dayroll => 0,
        ThemeName::Nord => 1,
        ThemeName::Gruvbox => 2,
        ThemeName::TokyoNight => 3,
    }
}

/// The theme at a position of the cycle.
pub open spec fn theme_at(i: int) -> ThemeName {
    if i % 4 == 0 {
        ThemeName::Dayroll
    } else if i % 4 == 1 {
        ThemeName::Nord
    } else if i % 4 == 2 {
        ThemeName::Gruvbox
    } else {
        ThemeName::TokyoNight
    }
}

/// The name of a theme as stored and shown.
pub open spec fn theme_label(t: ThemeName) -> Seq<char> {
    match t {
        ThemeName::Dayroll => "dayroll"@,
        ThemeName::Nord => "nord"@,
        ThemeName::Gruvbox => "gruvbox"@,
        ThemeName::TokyoNight => "tokyo-night"@,
    }
}

impl ThemeName {
    pub fn as_str(self) -> (r: &'static str)
        ensures
            r@ == theme_label(self),
    {
        match self {
            ThemeName::Dayroll => "dayroll",
            ThemeName::Nord => "nord",
            ThemeName::Gruvbox => "gruvbox",
            ThemeName::TokyoNight => "tokyo-night",
        }
    }

    /// The next theme of the cycle Dayroll, Nord, Gruvbox, Tokyo Night.
    pub fn next(self) -> (r: ThemeName)
        ensures
            r == theme_at(theme_index(self) + 1),
    {
        match self {
            ThemeName::Dayroll => ThemeName::Nord,
            ThemeName::Nord => ThemeName::Gruvbox,
            ThemeName::Gruvbox => ThemeName::TokyoNight,
            ThemeName::TokyoNight => ThemeName::Dayroll,
        }
    }

    /// The previous theme of the cycle.
    pub fn previous(self) -> (r: ThemeName)
        ensures
            r == theme_at(theme_index(self) + 3),
    {
        match self {
            ThemeName::Dayroll => ThemeName::TokyoNight,
            ThemeName::Nord => ThemeName::Dayroll,
            ThemeName::Gruvbox => ThemeName::Nord,
            ThemeName::TokyoNight => ThemeName::Gruvbox,
        }
    }
}

/// Going to the next theme and back, or back and forward, returns to the
/// same theme; four steps in one direction make a full cycle.
pub proof fn law_theme_cycle(t: ThemeName)
    ensures
        theme_at(theme_index(theme_at(theme_index(t) + 1)) + 3) == t,
        theme_at(theme_index(theme_at(theme_index(t) + 3)) + 1) == t,
        theme_at(theme_index(t) + 4) == t,
        theme_at(theme_index(t)) == t,
{
}

/// A colour given by its red, green and blue components.
#[derive(Clone, Copy, Debug, PartialEq, Eq, Structural)]
pub struct Rgb(pub u8, pub u8, pub u8);

/// The colours of a theme.
#[derive(Clone, Copy, Debug, PartialEq, Eq, Structural)]
pub struct Theme {
    pub bg: Rgb,
    pub panel: Rgb,
    pub bar: Rgb,
    pub border: Rgb,
    pub text: Rgb,
    pub muted: Rgb,
    pub accent: Rgb,
    pub info: Rgb,
    pub ok: Rgb,
    pub warn: Rgb,
    pub danger: Rgb,
}

/// The palette of each theme.
pub open spec fn palette(name: ThemeName) -> Theme {
    match name {
        ThemeName::Dayroll => Theme {
            bg: Rgb(26, 31, 38),
            panel: Rgb(34, 41, 50),
            bar: Rgb(30, 36, 44),
            border: Rgb(95, 110, 126),
            text: Rgb(232, 238, 244),
            muted: Rgb(176, 187, 198),
            accent: Rgb(233, 165, 89),
            info: Rgb(142, 177, 222),
            ok: Rgb(132, 225, 164),
            warn: Rgb(242, 197, 107),
            danger: Rgb(236, 120, 92),
        },
        ThemeName::Nord => Theme {
            bg: Rgb(46, 52, 64),
            panel: Rgb(59, 66, 82),
            bar: Rgb(67, 76, 94),
            border: Rgb(129, 161, 193),
            text: Rgb(236, 239, 244),
            muted: Rgb(180, 188, 204),
            accent: Rgb(136, 192, 208),
            info: Rgb(143, 188, 187),
            ok: Rgb(163, 190, 140),
            warn: Rgb(235, 203, 139),
            danger: Rgb(191, 97, 106),
        },
        ThemeName::Gruvbox => Theme {
            bg: Rgb(40, 40, 40),
            panel: Rgb(50, 48, 47),
            bar: Rgb(60, 56, 54),
            border: Rgb(146, 131, 116),
            text: Rgb(235, 219, 178),
            muted: Rgb(168, 153, 132),
            accent: Rgb(250, 189, 47),
            info: Rgb(131, 165, 152),
            ok: Rgb(184, 187, 38),
            warn: Rgb(250, 189, 47),
            danger: Rgb(251, 73, 52),
        },
        ThemeName::TokyoNight => Theme {
            bg: Rgb(26, 27, 38),
            panel: Rgb(36, 40, 59),
            bar: Rgb(41, 46, 66),
            border: Rgb(122, 162, 247),
            text: Rgb(192, 202, 245),
            muted: Rgb(161, 168, 204),
            accent: Rgb(187, 154, 247),
            info: Rgb(125, 207, 255),
            ok: Rgb(158, 206, 106),
            warn: Rgb(224, 175, 104),
            danger: Rgb(247, 118, 142),
        },
    }
}

/// The colours of the named theme.
pub fn theme_by_name(name: ThemeName) -> (r: Theme)
    ensures
        r == palette(name),
{
    match name {
        ThemeName::Dayroll => Theme {
            bg: Rgb(26, 31, 38),
            panel: Rgb(34, 41, 50),
            bar: Rgb(30, 36, 44),
            border: Rgb(95, 110, 126),
            text: Rgb(232, 238, 244),
            muted: Rgb(176, 187, 198),
            accent: Rgb(233, 165, 89),
            info: Rgb(142, 177, 222),
            ok: Rgb(132, 225, 164),
            warn: Rgb(242, 197, 107),
            danger: Rgb(236, 120, 92),
        },
        ThemeName::Nord => Theme {
            bg: Rgb(46, 52, 64),
            panel: Rgb(59, 66, 82),
            bar: Rgb(67, 76, 94),
            border: Rgb(129, 161, 193),
            text: Rgb(236, 239, 244),
            muted: Rgb(180, 188, 204),
            accent: Rgb(136, 192, 208),
            info: Rgb(143, 188, 187),
            ok: Rgb(163, 190, 140),
            warn: Rgb(235, 203, 139),
            danger: Rgb(191, 97, 106),
        },
        ThemeName::Gruvbox => Theme {
            bg: Rgb(40, 40, 40),
            panel: Rgb(50, 48, 47),
            bar: Rgb(60, 56, 54),
            border: Rgb(146, 131, 116),
            text: Rgb(235, 219, 178),
            muted: Rgb(168, 153, 132),
            accent: Rgb(250, 189, 47),
            info: Rgb(131, 165, 152),
            ok: Rgb(184, 187, 38),
            warn: Rgb(250, 189, 47),
            danger: Rgb(251, 73, 52),
        },
        ThemeName::TokyoNight => Theme {
            bg: Rgb(26, 27, 38),
            panel: Rgb(36, 40, 59),
            bar: Rgb(41, 46, 66),
            border: Rgb(122, 162, 247),
            text: Rgb(192, 202, 245),
            muted: Rgb(161, 168, 204),
            accent: Rgb(187, 154, 247),
            info: Rgb(125, 207, 255),
            ok: Rgb(158, 206, 106),
            warn: Rgb(224, 175, 104),
            danger: Rgb(247, 118, 142),
        },
    }
}

/// The settings kept between runs.
#[derive(Clone, Copy, Debug, PartialEq, Eq, Structural)]
pub struct AppConfig {
    pub theme: ThemeName,
}

impl Default for AppConfig {
    fn default() -> (r: AppConfig)
        ensures
            r.theme == ThemeName::Dayroll,
    {
        AppConfig { theme: ThemeName::Dayroll }
    }
}

} // verus!
