//! What the user has chosen: colours, views, the menu that is open.

use crate::digits::{decimal, decimal_text};
use vstd::prelude::*;
use vstd::string::StringExecFns;

verus! {

/// A colour: red, green, blue and opacity.
#[derive(Clone, Copy, Debug, PartialEq, Eq, Structural)]
pub struct Color(pub u8, pub u8, pub u8, pub u8);

impl Color {
    /// The colour as a style sheet writes it.
    pub open spec fn css(self) -> Seq<char> {
        "rgba("@ + decimal_text(self.0 as nat) + ", "@ + decimal_text(self.1 as nat) + ", "@
            + decimal_text(self.2 as nat) + ", "@ + decimal_text(self.3 as nat) + ")"@
    }

    pub fn to_string(&self) -> (r: String)
        ensures
            r@ == self.css(),
    {
        let mut out = String::from_str("rgba(");
        out.append(decimal(self.0 as u64).as_str());
        out.append(", ");
        out.append(decimal(self.1 as u64).as_str());
        out.append(", ");
        out.append(decimal(self.2 as u64).as_str());
        out.append(", ");
        out.append(decimal(self.3 as u64).as_str());
        out.append(")");
        out
    }
}

#[derive(Clone, Copy, Debug, PartialEq, Eq, Structural)]
pub struct ColorTheme {
    pub background1: Color,
    pub background2: Color,
    pub foreground1: Color,
    pub foreground2: Color,
    pub spare1: Color,
    pub spare2: Color,
}

impl ColorTheme {
    /// The dark theme that the application starts with.
    pub fn default_dark() -> (r: Self)
        ensures
            r == (Self {
                background1: Color(60, 60, 60, 255),
                background2: Color(105, 105, 105, 255),
                foreground1: Color(240, 240, 240, 255),
                foreground2: Color(100, 200, 150, 255),
                spare1: Color(40, 40, 40, 255),
                spare2: Color(185, 210, 235, 255),
            }),
    {
        Self {
            background1: Color(60, 60, 60, 255),
            background2: Color(105, 105, 105, 255),
            foreground1: Color(240, 240, 240, 255),
            foreground2: Color(100, 200, 150, 255),
            spare1: Color(40, 40, 40, 255),
            spare2: Color(185, 210, 235, 255),
        }
    }

    /// The light theme.
    pub fn default_light() -> (r: Self)
        ensures
            r == (Self {
                background1: Color(230, 230, 230, 255),
                background2: Color(180, 180, 180, 255),
                foreground1: Color(50, 50, 50, 255),
                foreground2: Color(80, 80, 80, 255),
                spare1: Color(80, 80, 80, 255),
                spare2: Color(30, 120, 50, 255),
            }),
    {
        Self {
            background1: Color(230, 230, 230, 255),
            background2: Color(180, 180, 180, 255),
            foreground1: Color(50, 50, 50, 255),
            foreground2: Color(80, 80, 80, 255),
            spare1: Color(80, 80, 80, 255),
            spare2: Color(30, 120, 50, 255),
        }
    }

    /// A dark theme with cyan and pink.
    pub fn gem_dark() -> (r: Self)
        ensures
            r == (Self {
                background1: Color(50, 50, 50, 255),
                background2: Color(30, 30, 30, 255),
                foreground1: Color(240, 240, 240, 255),
                foreground2: Color(0, 255, 255, 255),
                spare1: Color(100, 100, 100, 255),
                spare2: Color(255, 192, 203, 255),
            }),
    {
        Self {
            background1: Color(50, 50, 50, 255),
            background2: Color(30, 30, 30, 255),
            foreground1: Color(240, 240, 240, 255),
            foreground2: Color(0, 255, 255, 255),
            spare1: Color(100, 100, 100, 255),
            spare2: Color(255, 192, 203, 255),
        }
    }

    /// A dark theme with green and blue.
    pub fn polish_dark() -> (r: Self)
        ensures
            r == (Self {
                background1: Color(30, 30, 30, 255),
                background2: Color(60, 60, 60, 255),
                foreground1: Color(220, 220, 220, 255),
                foreground2: Color(50, 150, 50, 255),
                spare1: Color(10, 10, 10, 255),
                spare2: Color(120, 180, 240, 255),
            }),
    {
        Self {
            background1: Color(30, 30, 30, 255),
            background2: Color(60, 60, 60, 255),
            foreground1: Color(220, 220, 220, 255),
            foreground2: Color(50, 150, 50, 255),
            spare1: Color(10, 10, 10, 255),
            spare2: Color(120, 180, 240, 255),
        }
    }
}

#[derive(Clone, Copy, Debug, PartialEq, Eq, Structural)]
pub enum AppMenu {
    Home,
    Explorer,
    Trash,
    Favorites,
    Search,
    Locked,
    Recents,
    Cloud,
    Settings,
}

#[derive(Clone, Copy, Debug, PartialEq, Eq, Structural)]
pub enum ItemsView {
    Grid,
    Rows,
    Tiles,
}

} // verus!
