//! The theme model of the client.
//!
//! The visual attributes themselves (colors, shadows) are presentation and
//! live outside the library; here stands only what can be decided about
//! them: which theme is in force and which style tag each widget gets under
//! it.  The tags are unit types so that the presentation layer can attach
//! its style-sheet implementations to copies of them.

use vstd::prelude::*;

verus! {

/// The color theme in force.
#[derive(Debug, Clone, Copy, PartialEq, Eq, Structural)]
pub enum Theme {
    Light,
    Dark,
}

impl Theme {
    /// The theme for a detected system preference: the dark theme when the
    /// system prefers dark, the light theme otherwise — also when nothing
    /// could be detected, so detection failure falls back to light.
    pub fn from_dark_mode(prefers_dark: bool) -> (t: Theme)
        ensures
            t == (if prefers_dark {
                Theme::Dark
            } else {
                Theme::Light
            }),
    {
        if prefers_dark {
            Theme::Dark
        } else {
            Theme::Light
        }
    }

    /// Whether this is the dark theme: decides, for every widget kind,
    /// whether the dark or the light style tag applies.
    pub fn is_dark(&self) -> (dark: bool)
        ensures
            dark == (*self == Theme::Dark),
    {
        match self {
            Theme::Dark => true,
            Theme::Light => false,
        }
    }
}

impl Default for Theme {
    /// The theme before any system preference is known: light.
    fn default() -> (t: Theme)
        ensures
            t == Theme::Light,
    {
        Theme::Light
    }
}

/// Style tag of a button under the light theme.
pub struct LightButton;

/// Style tag of a button under the dark theme.
pub struct DarkButton;

/// Style tag of the message input field under the light theme.
pub struct LightTextInput;

/// Style tag of the message input field under the dark theme.
pub struct DarkTextInput;

/// Style tag of the interests input field (themed on its own).
pub struct InterestsTextInput;

/// Style tag of the main container under the dark theme.
pub struct DarkContainer;

/// Style tag of the container around the local user's messages.
pub struct YouContainer;

/// Style tag of the container around the stranger's messages.
pub struct StrangerContainer;

} // verus!
