//! Colour themes of the court.
use vstd::prelude::*;

verus! {

#[derive(Clone, Copy, Debug, PartialEq, Eq, Structural)]
pub enum GameTheme {
    Monokai,
    Solarized,
    Dracula,
    GruvboxDark,
    Nord,
    OneDark,
    HighContrast,
}

/// A terminal colour: the terminal's own default, a named colour or RGB.
#[derive(Clone, Copy, Debug, PartialEq, Eq, Structural)]
pub enum ThemeColor {
    Reset,
    Black,
    White,
    Yellow,
    Rgb(u8, u8, u8),
}

/// The colours that one theme gives each element of the court.
#[derive(Clone, Copy, Debug, PartialEq, Eq, Structural)]
pub struct ThemeColors {
    pub background: ThemeColor,
    pub border: ThemeColor,
    pub text: ThemeColor,
    pub accent: ThemeColor,
    pub player_bar: ThemeColor,
    pub player_bar_power: ThemeColor,
    pub ball: ThemeColor,
}

impl GameTheme {
    /// The theme after this one in the cycle, which wraps around.
    pub open spec fn spec_next(self) -> GameTheme {
        match self {
            GameTheme::Monokai => GameTheme::Solarized,
            GameTheme::Solarized => GameTheme::Dracula,
            GameTheme::Dracula => GameTheme::GruvboxDark,
            GameTheme::GruvboxDark => GameTheme::Nord,
            GameTheme::Nord => GameTheme::OneDark,
            GameTheme::OneDark => GameTheme::HighContrast,
            GameTheme::HighContrast => GameTheme::Monokai,
        }
    }

    pub fn next(self) -> (r: GameTheme)
        ensures
            r == self.spec_next(),
    {
        match self {
            GameTheme::Monokai => GameTheme::Solarized,
            GameTheme::Solarized => GameTheme::Dracula,
            GameTheme::Dracula => GameTheme::GruvboxDark,
            GameTheme::GruvboxDark => GameTheme::Nord,
            GameTheme::Nord => GameTheme::OneDark,
            GameTheme::OneDark => GameTheme::HighContrast,
            GameTheme::HighContrast => GameTheme::Monokai,
        }
    }

    /// The colour table of each theme.
    pub open spec fn palette(self) -> ThemeColors {
        match self {
            GameTheme::Monokai => ThemeColors {
                background: ThemeColor::Reset,
                border: ThemeColor::Rgb(249, 38, 114),
                text: ThemeColor::Rgb(248, 248, 242),
                accent: ThemeColor::Rgb(166, 226, 46),
                player_bar: ThemeColor::Rgb(102, 217, 239),
                player_bar_power: ThemeColor::Rgb(230, 219, 116),
                ball: ThemeColor::Rgb(255, 95, 135),
            },
            GameTheme::Solarized => ThemeColors {
                background: ThemeColor::Reset,
                border: ThemeColor::Rgb(38, 139, 210),
                text: ThemeColor::Rgb(101, 123, 131),
                accent: ThemeColor::Rgb(42, 161, 152),
                player_bar: ThemeColor::Rgb(133, 153, 0),
                player_bar_power: ThemeColor::Rgb(181, 137, 0),
                ball: ThemeColor::Rgb(220, 50, 47),
            },
            GameTheme::Dracula => ThemeColors {
                background: ThemeColor::Reset,
                border: ThemeColor::Rgb(255, 121, 198),
                text: ThemeColor::Rgb(248, 248, 242),
                accent: ThemeColor::Rgb(189, 147, 249),
                player_bar: ThemeColor::Rgb(80, 250, 123),
                player_bar_power: ThemeColor::Rgb(241, 250, 140),
                ball: ThemeColor::Rgb(255, 85, 85),
            },
            GameTheme::GruvboxDark => ThemeColors {
                background: ThemeColor::Reset,
                border: ThemeColor::Rgb(250, 189, 47),
                text: ThemeColor::Rgb(235, 219, 178),
                accent: ThemeColor::Rgb(184, 187, 38),
                player_bar: ThemeColor::Rgb(131, 165, 152),
                player_bar_power: ThemeColor::Rgb(254, 128, 25),
                ball: ThemeColor::Rgb(251, 73, 52),
            },
            GameTheme::Nord => ThemeColors {
                background: ThemeColor::Reset,
                border: ThemeColor::Rgb(136, 192, 208),
                text: ThemeColor::Rgb(216, 222, 233),
                accent: ThemeColor::Rgb(143, 188, 187),
                player_bar: ThemeColor::Rgb(94, 129, 172),
                player_bar_power: ThemeColor::Rgb(235, 203, 139),
                ball: ThemeColor::Rgb(191, 97, 106),
            },
            GameTheme::OneDark => ThemeColors {
                background: ThemeColor::Reset,
                border: ThemeColor::Rgb(198, 120, 221),
                text: ThemeColor::Rgb(171, 178, 191),
                accent: ThemeColor::Rgb(97, 175, 239),
                player_bar: ThemeColor::Rgb(152, 195, 121),
                player_bar_power: ThemeColor::Rgb(229, 192, 123),
                ball: ThemeColor::Rgb(224, 108, 117),
            },
            GameTheme::HighContrast => ThemeColors {
                background: ThemeColor::Black,
                border: ThemeColor::White,
                text: ThemeColor::White,
                accent: ThemeColor::Yellow,
                player_bar: ThemeColor::Rgb(0, 255, 255),
                player_bar_power: ThemeColor::Rgb(0, 255, 0),
                ball: ThemeColor::Rgb(255, 0, 0),
            },
        }
    }

    pub fn colors(&self) -> (r: ThemeColors)
        ensures
            r == self.palette(),
    {
        match self {
            GameTheme::Monokai => ThemeColors {
                background: ThemeColor::Reset,
                border: ThemeColor::Rgb(249, 38, 114),
                text: ThemeColor::Rgb(248, 248, 242),
                accent: ThemeColor::Rgb(166, 226, 46),
                player_bar: ThemeColor::Rgb(102, 217, 239),
                player_bar_power: ThemeColor::Rgb(230, 219, 116),
                ball: ThemeColor::Rgb(255, 95, 135),
            },
            GameTheme::Solarized => ThemeColors {
                background: ThemeColor::Reset,
                border: ThemeColor::Rgb(38, 139, 210),
                text: ThemeColor::Rgb(101, 123, 131),
                accent: ThemeColor::Rgb(42, 161, 152),
                player_bar: ThemeColor::Rgb(133, 153, 0),
                player_bar_power: ThemeColor::Rgb(181, 137, 0),
                ball: ThemeColor::Rgb(220, 50, 47),
            },
            GameTheme::Dracula => ThemeColors {
                background: ThemeColor::Reset,
                border: ThemeColor::Rgb(255, 121, 198),
                text: ThemeColor::Rgb(248, 248, 242),
                accent: ThemeColor::Rgb(189, 147, 249),
                player_bar: ThemeColor::Rgb(80, 250, 123),
                player_bar_power: ThemeColor::Rgb(241, 250, 140),
                ball: ThemeColor::Rgb(255, 85, 85),
            },
            GameTheme::GruvboxDark => ThemeColors {
                background: ThemeColor::Reset,
                border: ThemeColor::Rgb(250, 189, 47),
                text: ThemeColor::Rgb(235, 219, 178),
                accent: ThemeColor::Rgb(184, 187, 38),
                player_bar: ThemeColor::Rgb(131, 165, 152),
                player_bar_power: ThemeColor::Rgb(254, 128, 25),
                ball: ThemeColor::Rgb(251, 73, 52),
            },
            GameTheme::Nord => ThemeColors {
                background: ThemeColor::Reset,
                border: ThemeColor::Rgb(136, 192, 208),
                text: ThemeColor::Rgb(216, 222, 233),
                accent: ThemeColor::Rgb(143, 188, 187),
                player_bar: ThemeColor::Rgb(94, 129, 172),
                player_bar_power: ThemeColor::Rgb(235, 203, 139),
                ball: ThemeColor::Rgb(191, 97, 106),
            },
            GameTheme::OneDark => ThemeColors {
                background: ThemeColor::Reset,
                border: ThemeColor::Rgb(198, 120, 221),
                text: ThemeColor::Rgb(171, 178, 191),
                accent: ThemeColor::Rgb(97, 175, 239),
                player_bar: ThemeColor::Rgb(152, 195, 121),
                player_bar_power: ThemeColor::Rgb(229, 192, 123),
                ball: ThemeColor::Rgb(224, 108, 117),
            },
            GameTheme::HighContrast => ThemeColors {
                background: ThemeColor::Black,
                border: ThemeColor::White,
                text: ThemeColor::White,
                accent: ThemeColor::Yellow,
                player_bar: ThemeColor::Rgb(0, 255, 255),
                player_bar_power: ThemeColor::Rgb(0, 255, 0),
                ball: ThemeColor::Rgb(255, 0, 0),
            },
        }
    }
}

} // verus!
