//! Color themes.
//!
//! A theme is an explicit configuration value: constructed once at
//! startup and passed into every rendering call, never a hidden global.
//! Colors are the dashboard's own plain values; the terminal layer maps
//! them onto whatever its drawing library uses.

use vstd::prelude::*;

verus! {

/// A color as the dashboard names it: one of the classic named
/// terminal colors, or a truecolor triple.
#[derive(Clone, Copy, Debug, PartialEq, Eq, Structural)]
pub enum Color {
    Black,
    White,
    Gray,
    DarkGray,
    Red,
    LightRed,
    Green,
    LightGreen,
    Yellow,
    LightYellow,
    Blue,
    LightBlue,
    Cyan,
    LightCyan,
    Rgb(u8, u8, u8),
}

/// A text style: an optional foreground and an optional background
/// color.
#[derive(Clone, Copy, Debug, PartialEq, Eq, Structural)]
pub struct Style {
    pub fg: Option<Color>,
    pub bg: Option<Color>,
}

impl Style {
    /// A style that only sets the foreground.
    pub fn fg_only(c: Color) -> (r: Style)
        ensures
            r == (Style { fg: Option::Some(c), bg: Option::None }),
    {
        Style { fg: Some(c), bg: None }
    }

    /// A style that sets foreground and background.
    pub fn fg_bg(fg: Color, bg: Color) -> (r: Style)
        ensures
            r == (Style { fg: Option::Some(fg), bg: Option::Some(bg) }),
    {
        Style { fg: Some(fg), bg: Some(bg) }
    }
}

/// A full color palette for the dashboard.
#[derive(Clone, Copy, Debug, PartialEq, Eq, Structural)]
pub struct Theme {
    // Base colors
    pub primary: Color,
    pub secondary: Color,
    pub accent: Color,
    pub success: Color,
    pub warning: Color,
    pub error: Color,
    pub info: Color,
    // Text colors
    pub text_primary: Color,
    pub text_secondary: Color,
    pub text_muted: Color,
    pub text_disabled: Color,
    // Surface colors
    pub background: Color,
    pub surface: Color,
    pub border: Color,
    pub selected_bg: Color,
    pub selected_fg: Color,
    pub hover_bg: Color,
    // Status colors
    pub running: Color,
    pub stopped: Color,
    pub loading: Color,
}

impl Theme {
    /// The stock dark theme.
    pub fn default() -> (r: Theme)
        ensures
            r == (Theme {
                primary: Color::Cyan,
                secondary: Color::Blue,
                accent: Color::Yellow,
                success: Color::Green,
                warning: Color::Rgb(255, 165, 0),
                error: Color::Red,
                info: Color::LightBlue,
                text_primary: Color::White,
                text_secondary: Color::LightBlue,
                text_muted: Color::DarkGray,
                text_disabled: Color::Gray,
                background: Color::Black,
                surface: Color::Rgb(40, 40, 40),
                border: Color::Gray,
                selected_bg: Color::DarkGray,
                selected_fg: Color::LightYellow,
                hover_bg: Color::Rgb(60, 60, 60),
                running: Color::Green,
                stopped: Color::Red,
                loading: Color::Yellow,
            }),
    {
        Theme {
            primary: Color::Cyan,
            secondary: Color::Blue,
            accent: Color::Yellow,
            success: Color::Green,
            warning: Color::Rgb(255, 165, 0),
            error: Color::Red,
            info: Color::LightBlue,
            text_primary: Color::White,
            text_secondary: Color::LightBlue,
            text_muted: Color::DarkGray,
            text_disabled: Color::Gray,
            background: Color::Black,
            surface: Color::Rgb(40, 40, 40),
            border: Color::Gray,
            selected_bg: Color::DarkGray,
            selected_fg: Color::LightYellow,
            hover_bg: Color::Rgb(60, 60, 60),
            running: Color::Green,
            stopped: Color::Red,
            loading: Color::Yellow,
        }
    }

    /// The alternative blue theme.
    pub fn blue() -> (r: Theme)
        ensures
            r == (Theme {
                primary: Color::Blue,
                secondary: Color::LightBlue,
                accent: Color::Cyan,
                success: Color::Green,
                warning: Color::Yellow,
                error: Color::Red,
                info: Color::LightCyan,
                text_primary: Color::White,
                text_secondary: Color::LightBlue,
                text_muted: Color::Gray,
                text_disabled: Color::DarkGray,
                background: Color::Black,
                surface: Color::Rgb(20, 30, 50),
                border: Color::Blue,
                selected_bg: Color::Rgb(30, 50, 80),
                selected_fg: Color::LightCyan,
                hover_bg: Color::Rgb(40, 60, 90),
                running: Color::LightGreen,
                stopped: Color::LightRed,
                loading: Color::LightYellow,
            }),
    {
        Theme {
            primary: Color::Blue,
            secondary: Color::LightBlue,
            accent: Color::Cyan,
            success: Color::Green,
            warning: Color::Yellow,
            error: Color::Red,
            info: Color::LightCyan,
            text_primary: Color::White,
            text_secondary: Color::LightBlue,
            text_muted: Color::Gray,
            text_disabled: Color::DarkGray,
            background: Color::Black,
            surface: Color::Rgb(20, 30, 50),
            border: Color::Blue,
            selected_bg: Color::Rgb(30, 50, 80),
            selected_fg: Color::LightCyan,
            hover_bg: Color::Rgb(40, 60, 90),
            running: Color::LightGreen,
            stopped: Color::LightRed,
            loading: Color::LightYellow,
        }
    }

    /// A dracula-inspired theme.
    pub fn dracula() -> (r: Theme)
        ensures
            r == (Theme {
                primary: Color::Rgb(139, 233, 253),
                secondary: Color::Rgb(98, 114, 164),
                accent: Color::Rgb(255, 184, 108),
                success: Color::Rgb(80, 250, 123),
                warning: Color::Rgb(255, 255, 135),
                error: Color::Rgb(255, 85, 85),
                info: Color::Rgb(189, 147, 249),
                text_primary: Color::Rgb(248, 248, 242),
                text_secondary: Color::Rgb(139, 233, 253),
                text_muted: Color::Rgb(98, 114, 164),
                text_disabled: Color::Rgb(68, 71, 90),
                background: Color::Rgb(40, 42, 54),
                surface: Color::Rgb(68, 71, 90),
                border: Color::Rgb(98, 114, 164),
                selected_bg: Color::Rgb(68, 71, 90),
                selected_fg: Color::Rgb(255, 184, 108),
                hover_bg: Color::Rgb(98, 114, 164),
                running: Color::Rgb(80, 250, 123),
                stopped: Color::Rgb(255, 85, 85),
                loading: Color::Rgb(255, 255, 135),
            }),
    {
        Theme {
            primary: Color::Rgb(139, 233, 253),
            secondary: Color::Rgb(98, 114, 164),
            accent: Color::Rgb(255, 184, 108),
            success: Color::Rgb(80, 250, 123),
            warning: Color::Rgb(255, 255, 135),
            error: Color::Rgb(255, 85, 85),
            info: Color::Rgb(189, 147, 249),
            text_primary: Color::Rgb(248, 248, 242),
            text_secondary: Color::Rgb(139, 233, 253),
            text_muted: Color::Rgb(98, 114, 164),
            text_disabled: Color::Rgb(68, 71, 90),
            background: Color::Rgb(40, 42, 54),
            surface: Color::Rgb(68, 71, 90),
            border: Color::Rgb(98, 114, 164),
            selected_bg: Color::Rgb(68, 71, 90),
            selected_fg: Color::Rgb(255, 184, 108),
            hover_bg: Color::Rgb(98, 114, 164),
            running: Color::Rgb(80, 250, 123),
            stopped: Color::Rgb(255, 85, 85),
            loading: Color::Rgb(255, 255, 135),
        }
    }

    /// A gruvbox-inspired theme.
    pub fn gruvbox() -> (r: Theme)
        ensures
            r == (Theme {
                primary: Color::Rgb(142, 192, 124),
                secondary: Color::Rgb(131, 165, 152),
                accent: Color::Rgb(250, 189, 47),
                success: Color::Rgb(142, 192, 124),
                warning: Color::Rgb(250, 189, 47),
                error: Color::Rgb(251, 73, 52),
                info: Color::Rgb(131, 165, 152),
                text_primary: Color::Rgb(235, 219, 178),
                text_secondary: Color::Rgb(189, 174, 147),
                text_muted: Color::Rgb(146, 131, 116),
                text_disabled: Color::Rgb(102, 92, 84),
                background: Color::Rgb(40, 40, 40),
                surface: Color::Rgb(60, 56, 54),
                border: Color::Rgb(102, 92, 84),
                selected_bg: Color::Rgb(80, 73, 69),
                selected_fg: Color::Rgb(250, 189, 47),
                hover_bg: Color::Rgb(102, 92, 84),
                running: Color::Rgb(142, 192, 124),
                stopped: Color::Rgb(251, 73, 52),
                loading: Color::Rgb(250, 189, 47),
            }),
    {
        Theme {
            primary: Color::Rgb(142, 192, 124),
            secondary: Color::Rgb(131, 165, 152),
            accent: Color::Rgb(250, 189, 47),
            success: Color::Rgb(142, 192, 124),
            warning: Color::Rgb(250, 189, 47),
            error: Color::Rgb(251, 73, 52),
            info: Color::Rgb(131, 165, 152),
            text_primary: Color::Rgb(235, 219, 178),
            text_secondary: Color::Rgb(189, 174, 147),
            text_muted: Color::Rgb(146, 131, 116),
            text_disabled: Color::Rgb(102, 92, 84),
            background: Color::Rgb(40, 40, 40),
            surface: Color::Rgb(60, 56, 54),
            border: Color::Rgb(102, 92, 84),
            selected_bg: Color::Rgb(80, 73, 69),
            selected_fg: Color::Rgb(250, 189, 47),
            hover_bg: Color::Rgb(102, 92, 84),
            running: Color::Rgb(142, 192, 124),
            stopped: Color::Rgb(251, 73, 52),
            loading: Color::Rgb(250, 189, 47),
        }
    }

    /// Headings.
    pub fn header_style(&self) -> (r: Style)
        ensures
            r == (Style { fg: Option::Some(self.accent), bg: Option::None }),
    {
        Style::fg_only(self.accent)
    }

    /// Block borders.
    pub fn border_style(&self) -> (r: Style)
        ensures
            r == (Style { fg: Option::Some(self.border), bg: Option::None }),
    {
        Style::fg_only(self.border)
    }

    /// The selected row.
    pub fn selected_style(&self) -> (r: Style)
        ensures
            r == (Style { fg: Option::Some(self.selected_fg), bg: Option::Some(self.selected_bg) }),
    {
        Style::fg_bg(self.selected_fg, self.selected_bg)
    }

    /// Ordinary text.
    pub fn normal_style(&self) -> (r: Style)
        ensures
            r == (Style { fg: Option::Some(self.text_primary), bg: Option::None }),
    {
        Style::fg_only(self.text_primary)
    }

    /// De-emphasized text.
    pub fn muted_style(&self) -> (r: Style)
        ensures
            r == (Style { fg: Option::Some(self.text_muted), bg: Option::None }),
    {
        Style::fg_only(self.text_muted)
    }

    /// Error text.
    pub fn error_style(&self) -> (r: Style)
        ensures
            r == (Style { fg: Option::Some(self.error), bg: Option::None }),
    {
        Style::fg_only(self.error)
    }

    /// Success text.
    pub fn success_style(&self) -> (r: Style)
        ensures
            r == (Style { fg: Option::Some(self.success), bg: Option::None }),
    {
        Style::fg_only(self.success)
    }

    /// Warning text.
    pub fn warning_style(&self) -> (r: Style)
        ensures
            r == (Style { fg: Option::Some(self.warning), bg: Option::None }),
    {
        Style::fg_only(self.warning)
    }

    /// Informational text.
    pub fn info_style(&self) -> (r: Style)
        ensures
            r == (Style { fg: Option::Some(self.info), bg: Option::None }),
    {
        Style::fg_only(self.info)
    }

    /// The border of a modal overlay.
    pub fn modal_border_style(&self) -> (r: Style)
        ensures
            r == (Style { fg: Option::Some(self.primary), bg: Option::None }),
    {
        Style::fg_only(self.primary)
    }

    /// Highlighted text.
    pub fn highlight_style(&self) -> (r: Style)
        ensures
            r == (Style { fg: Option::Some(self.secondary), bg: Option::None }),
    {
        Style::fg_only(self.secondary)
    }

    /// The status of a running container.
    pub fn running_status_style(&self) -> (r: Style)
        ensures
            r == (Style { fg: Option::Some(self.running), bg: Option::None }),
    {
        Style::fg_only(self.running)
    }

    /// The status of a stopped container.
    pub fn stopped_status_style(&self) -> (r: Style)
        ensures
            r == (Style { fg: Option::Some(self.stopped), bg: Option::None }),
    {
        Style::fg_only(self.stopped)
    }

    /// Loading placeholders.
    pub fn loading_style(&self) -> (r: Style)
        ensures
            r == (Style { fg: Option::Some(self.loading), bg: Option::None }),
    {
        Style::fg_only(self.loading)
    }
}

} // verus!
