//! The application's palette, as 8-bit red, green and blue channels.

use vstd::prelude::*;

verus! {

/// Accent colours used for primary surfaces and links.
#[derive(Debug, Clone, Copy, PartialEq)]
pub enum AppColorMain {
    Primary,
    Secondary,
    Tertiary,
    AccentPrimary,
    AccentSecondary,
    AccentTertiary,
}

impl AppColorMain {
    /// The channels of this palette entry.
    pub open spec fn channels(self) -> (u8, u8, u8) {
        match self {
            AppColorMain::Primary => (180u8, 190u8, 254u8),
            AppColorMain::Secondary => (137u8, 180u8, 250u8),
            AppColorMain::Tertiary => (116u8, 199u8, 236u8),
            AppColorMain::AccentPrimary => (203u8, 166u8, 247u8),
            AppColorMain::AccentSecondary => (245u8, 194u8, 231u8),
            AppColorMain::AccentTertiary => (242u8, 205u8, 205u8),
        }
    }

    /// Red, green and blue of this palette entry.
    pub fn rgb8(self) -> (rgb: (u8, u8, u8))
        ensures
            rgb == self.channels(),
    {
        match self {
            AppColorMain::Primary => (180, 190, 254),
            AppColorMain::Secondary => (137, 180, 250),
            AppColorMain::Tertiary => (116, 199, 236),
            AppColorMain::AccentPrimary => (203, 166, 247),
            AppColorMain::AccentSecondary => (245, 194, 231),
            AppColorMain::AccentTertiary => (242, 205, 205),
        }
    }
}

/// Colours that report how something went.
#[derive(Debug, Clone, Copy, PartialEq)]
pub enum AppColorStatus {
    Success,
    Warning,
    Failure,
}

impl AppColorStatus {
    /// The channels of this palette entry.
    pub open spec fn channels(self) -> (u8, u8, u8) {
        match self {
            AppColorStatus::Success => (166u8, 227u8, 161u8),
            AppColorStatus::Warning => (249u8, 226u8, 175u8),
            AppColorStatus::Failure => (243u8, 139u8, 168u8),
        }
    }

    /// Red, green and blue of this palette entry.
    pub fn rgb8(self) -> (rgb: (u8, u8, u8))
        ensures
            rgb == self.channels(),
    {
        match self {
            AppColorStatus::Success => (166, 227, 161),
            AppColorStatus::Warning => (249, 226, 175),
            AppColorStatus::Failure => (243, 139, 168),
        }
    }
}

/// Colours of backgrounds and raised surfaces.
#[derive(Debug, Clone, Copy, PartialEq)]
pub enum AppColorBackground {
    Primary,
    Secondary,
    Tertiary,
    SurfacePrimary,
    SurfaceSecondary,
    SurfaceTertiary,
}

impl AppColorBackground {
    /// The channels of this palette entry.
    pub open spec fn channels(self) -> (u8, u8, u8) {
        match self {
            AppColorBackground::Primary => (17u8, 17u8, 27u8),
            AppColorBackground::Secondary => (24u8, 24u8, 37u8),
            AppColorBackground::Tertiary => (30u8, 30u8, 46u8),
            AppColorBackground::SurfacePrimary => (49u8, 50u8, 68u8),
            AppColorBackground::SurfaceSecondary => (69u8, 71u8, 90u8),
            AppColorBackground::SurfaceTertiary => (88u8, 91u8, 112u8),
        }
    }

    /// Red, green and blue of this palette entry.
    pub fn rgb8(self) -> (rgb: (u8, u8, u8))
        ensures
            rgb == self.channels(),
    {
        match self {
            AppColorBackground::Primary => (17, 17, 27),
            AppColorBackground::Secondary => (24, 24, 37),
            AppColorBackground::Tertiary => (30, 30, 46),
            AppColorBackground::SurfacePrimary => (49, 50, 68),
            AppColorBackground::SurfaceSecondary => (69, 71, 90),
            AppColorBackground::SurfaceTertiary => (88, 91, 112),
        }
    }
}

/// Colours of text.
#[derive(Debug, Clone, Copy, PartialEq)]
pub enum AppColorForeground {
    Primary,
    Secondary,
    Tertiary,
    SubtextPrimary,
    SubtextSecondary,
    SubtextTertiary,
}

impl AppColorForeground {
    /// The channels of this palette entry.
    pub open spec fn channels(self) -> (u8, u8, u8) {
        match self {
            AppColorForeground::Primary => (205u8, 214u8, 244u8),
            AppColorForeground::Secondary => (186u8, 194u8, 222u8),
            AppColorForeground::Tertiary => (166u8, 173u8, 200u8),
            AppColorForeground::SubtextPrimary => (147u8, 153u8, 178u8),
            AppColorForeground::SubtextSecondary => (127u8, 132u8, 156u8),
            AppColorForeground::SubtextTertiary => (108u8, 112u8, 134u8),
        }
    }

    /// Red, green and blue of this palette entry.
    pub fn rgb8(self) -> (rgb: (u8, u8, u8))
        ensures
            rgb == self.channels(),
    {
        match self {
            AppColorForeground::Primary => (205, 214, 244),
            AppColorForeground::Secondary => (186, 194, 222),
            AppColorForeground::Tertiary => (166, 173, 200),
            AppColorForeground::SubtextPrimary => (147, 153, 178),
            AppColorForeground::SubtextSecondary => (127, 132, 156),
            AppColorForeground::SubtextTertiary => (108, 112, 134),
        }
    }
}

} // verus!
