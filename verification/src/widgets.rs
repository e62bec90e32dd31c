//! What the buttons of the site are told, and what they decide from it. How a
//! button is painted is not settled here.

use vstd::prelude::*;

verus! {

/// The picture on the theme button.
#[derive(Clone, Copy, Debug, PartialEq, Eq, Structural)]
pub enum ThemeIcon {
    /// A sun: a click leads to the light theme.
    Sun,
    /// A crescent moon: a click leads to the dark theme.
    Moon,
}

/// The picture on the menu button.
#[derive(Clone, Copy, Debug, PartialEq, Eq, Structural)]
pub enum MenuIcon {
    /// Three bars: a click opens the menu.
    Bars,
    /// A cross: a click closes the menu.
    Cross,
}

/// The button that switches between the dark and the light theme.
#[derive(Clone, Copy, Debug)]
pub struct ThemeToggleButton {
    pub is_dark: bool,
}

impl ThemeToggleButton {
    /// A button for a site that is dark, or is not.
    pub fn new(is_dark: bool) -> (r: Self)
        ensures
            r.is_dark == is_dark,
    {
        Self { is_dark }
    }

    /// The picture to show: the theme that a click leads to.
    pub fn icon(&self) -> (r: ThemeIcon)
        ensures
            r == if self.is_dark {
                ThemeIcon::Sun
            } else {
                ThemeIcon::Moon
            },
    {
        if self.is_dark {
            ThemeIcon::Sun
        } else {
            ThemeIcon::Moon
        }
    }
}

/// The button that opens and closes the menu overlay.
#[derive(Clone, Copy, Debug)]
pub struct MenuToggleButton {
    pub is_open: bool,
}

impl MenuToggleButton {
    /// A button for a menu that is open, or is not.
    pub fn new(is_open: bool) -> (r: Self)
        ensures
            r.is_open == is_open,
    {
        Self { is_open }
    }

    /// The picture to show: what a click does to the menu.
    pub fn icon(&self) -> (r: MenuIcon)
        ensures
            r == if self.is_open {
                MenuIcon::Cross
            } else {
                MenuIcon::Bars
            },
    {
        if self.is_open {
            MenuIcon::Cross
        } else {
            MenuIcon::Bars
        }
    }
}

/// An entry of the navigation bar.
#[derive(Clone, Copy, Debug)]
pub struct NavBarButton<'a> {
    pub label: &'a str,
    pub selected: bool,
}

impl<'a> NavBarButton<'a> {
    /// An entry with its label, for the page that is shown or for another.
    pub fn new(label: &'a str, selected: bool) -> (r: Self)
        ensures
            r.label@ == label@,
            r.selected == selected,
    {
        Self { label, selected }
    }

    /// Whether the entry gets a background: the entry of the page that is
    /// shown does, and so does the one under the pointer.
    pub fn filled(&self, hovered: bool) -> (r: bool)
        ensures
            r == (self.selected || hovered),
    {
        self.selected || hovered
    }
}

/// An entry of the menu overlay, as wide as the screen.
#[derive(Clone, Copy, Debug)]
pub struct NavMenuButton<'a> {
    pub label: &'a str,
    pub selected: bool,
}

impl<'a> NavMenuButton<'a> {
    /// An entry with its label, for the page that is shown or for another.
    pub fn new(label: &'a str, selected: bool) -> (r: Self)
        ensures
            r.label@ == label@,
            r.selected == selected,
    {
        Self { label, selected }
    }
}

} // verus!
