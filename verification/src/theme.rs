//! Visual theme selection and its color palette.
use vstd::prelude::*;

verus! {

/// An opaque RGB color.
#[derive(Debug, Clone, Copy, PartialEq, Eq, Structural)]
pub struct Rgb {
    /// Red.
    pub r: u8,
    /// Green.
    pub g: u8,
    /// Blue.
    pub b: u8,
}

/// Active visual theme selection.
#[derive(Debug, Clone, Copy, PartialEq, Eq, Structural)]
pub enum AppTheme {
    /// Dark slate theme with cyan and emerald accents.
    Dark,
    /// Light theme with sapphire accents.
    Light,
}

/// The other theme.
pub open spec fn toggled(t: AppTheme) -> AppTheme {
    match t {
        AppTheme::Dark => AppTheme::Light,
        AppTheme::Light => AppTheme::Dark,
    }
}

/// A color from its three channels.
pub open spec fn rgb(r: u8, g: u8, b: u8) -> Rgb {
    Rgb { r, g, b }
}

/// `dark` in the dark theme, `light` in the light one.
pub open spec fn by_theme(t: AppTheme, dark: Rgb, light: Rgb) -> Rgb {
    match t {
        AppTheme::Dark => dark,
        AppTheme::Light => light,
    }
}

impl AppTheme {
    /// Switches between the dark and the light theme.
    pub fn toggle(self) -> (r: Self)
        ensures
            r == toggled(self),
    {
        match self {
            AppTheme::Dark => AppTheme::Light,
            AppTheme::Light => AppTheme::Dark,
        }
    }

    /// Primary background color.
    pub fn bg_color(self) -> (c: Rgb)
        ensures
            c == by_theme(self, rgb(15, 17, 23), rgb(244, 246, 250)),
    {
        match self {
            AppTheme::Dark => Rgb { r: 15, g: 17, b: 23 },
            AppTheme::Light => Rgb { r: 244, g: 246, b: 250 },
        }
    }
    /// Container / card background color.
    pub fn card_bg(self) -> (c: Rgb)
        ensures
            c == by_theme(self, rgb(24, 27, 36), rgb(255, 255, 255)),
    {
        match self {
            AppTheme::Dark => Rgb { r: 24, g: 27, b: 36 },
            AppTheme::Light => Rgb { r: 255, g: 255, b: 255 },
        }
    }
    /// Subtle card border color.
    pub fn card_border(self) -> (c: Rgb)
        ensures
            c == by_theme(self, rgb(45, 52, 68), rgb(222, 228, 238)),
    {
        match self {
            AppTheme::Dark => Rgb { r: 45, g: 52, b: 68 },
            AppTheme::Light => Rgb { r: 222, g: 228, b: 238 },
        }
    }
    /// Primary accent color (cyan in dark, royal blue in light).
    pub fn accent_primary(self) -> (c: Rgb)
        ensures
            c == by_theme(self, rgb(0, 210, 255), rgb(14, 116, 222)),
    {
        match self {
            AppTheme::Dark => Rgb { r: 0, g: 210, b: 255 },
            AppTheme::Light => Rgb { r: 14, g: 116, b: 222 },
        }
    }
    /// Secondary / success accent color (emerald green).
    pub fn accent_secondary(self) -> (c: Rgb)
        ensures
            c == by_theme(self, rgb(16, 185, 129), rgb(5, 150, 105)),
    {
        match self {
            AppTheme::Dark => Rgb { r: 16, g: 185, b: 129 },
            AppTheme::Light => Rgb { r: 5, g: 150, b: 105 },
        }
    }
    /// Primary text color.
    pub fn text_primary(self) -> (c: Rgb)
        ensures
            c == by_theme(self, rgb(243, 244, 246), rgb(17, 24, 39)),
    {
        match self {
            AppTheme::Dark => Rgb { r: 243, g: 244, b: 246 },
            AppTheme::Light => Rgb { r: 17, g: 24, b: 39 },
        }
    }
    /// Secondary / muted label text color.
    pub fn text_secondary(self) -> (c: Rgb)
        ensures
            c == by_theme(self, rgb(156, 163, 175), rgb(107, 114, 128)),
    {
        match self {
            AppTheme::Dark => Rgb { r: 156, g: 163, b: 175 },
            AppTheme::Light => Rgb { r: 107, g: 114, b: 128 },
        }
    }
    /// Background of text fields and other recessed areas.
    pub fn extreme_bg(self) -> (c: Rgb)
        ensures
            c == by_theme(self, rgb(10, 12, 16), rgb(238, 242, 246)),
    {
        match self {
            AppTheme::Dark => Rgb { r: 10, g: 12, b: 16 },
            AppTheme::Light => Rgb { r: 238, g: 242, b: 246 },
        }
    }
    /// Background of a hovered widget.
    pub fn hovered_bg(self) -> (c: Rgb)
        ensures
            c == by_theme(self, rgb(36, 42, 56), rgb(235, 240, 248)),
    {
        match self {
            AppTheme::Dark => Rgb { r: 36, g: 42, b: 56 },
            AppTheme::Light => Rgb { r: 235, g: 240, b: 248 },
        }
    }
    /// Fill of the navigation button of the open tab.
    pub fn active_tab_fill(self) -> (c: Rgb)
        ensures
            c == by_theme(self, rgb(30, 40, 56), rgb(225, 235, 250)),
    {
        match self {
            AppTheme::Dark => Rgb { r: 30, g: 40, b: 56 },
            AppTheme::Light => Rgb { r: 225, g: 235, b: 250 },
        }
    }}

/// The fill color of a load gauge for a load in tenths of a percent: red
/// above 85 %, amber above 60 %, else the theme's secondary accent.
pub open spec fn gauge_color_for(t: AppTheme, load_tenths: u32) -> Rgb {
    if load_tenths > 850 {
        rgb(239, 68, 68)
    } else if load_tenths > 600 {
        rgb(245, 158, 11)
    } else {
        by_theme(t, rgb(16, 185, 129), rgb(5, 150, 105))
    }
}

impl AppTheme {
    /// Picks the fill color of a load gauge.
    pub fn gauge_color(self, load_tenths: u32) -> (c: Rgb)
        ensures
            c == gauge_color_for(self, load_tenths),
    {
        if load_tenths > 850 {
            Rgb { r: 239, g: 68, b: 68 }
        } else if load_tenths > 600 {
            Rgb { r: 245, g: 158, b: 11 }
        } else {
            self.accent_secondary()
        }
    }
}

/// Toggling the theme twice gives the theme back.
pub proof fn lemma_toggle_involution(t: AppTheme)
    ensures
        toggled(toggled(t)) == t,
{
}

/// Toggling always changes the theme.
pub proof fn lemma_toggle_changes(t: AppTheme)
    ensures
        toggled(t) != t,
{
}

/// A load gauge is red above 85 %, amber above 60 %, and emerald green
/// (the theme's shade) up to 60 %.
pub proof fn lemma_gauge_colors(t: AppTheme, load_tenths: u32)
    ensures
        load_tenths > 850 ==> gauge_color_for(t, load_tenths) == (Rgb { r: 239, g: 68, b: 68 }),
        600 < load_tenths <= 850 ==> gauge_color_for(t, load_tenths) == (Rgb { r: 245, g: 158, b: 11 }),
        load_tenths <= 600 && t == AppTheme::Dark ==> gauge_color_for(t, load_tenths) == (Rgb { r: 16, g: 185, b: 129 }),
        load_tenths <= 600 && t == AppTheme::Light ==> gauge_color_for(t, load_tenths) == (Rgb { r: 5, g: 150, b: 105 }),
{
}

} // verus!
