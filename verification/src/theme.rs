//! The choice between light and dark.

use vstd::prelude::*;

verus! {

/// Which theme the user chose.
#[derive(Copy, Clone, Debug, PartialEq, Eq, Structural)]
pub enum ThemeChoice {
    /// What the operating system uses for its applications.
    System,
    Dark,
    Light,
}

impl Default for ThemeChoice {
    fn default() -> (r: Self)
        ensures
            r == ThemeChoice::System,
    {
        ThemeChoice::System
    }
}

/// How a theme choice is called.
pub open spec fn theme_text(choice: ThemeChoice) -> Seq<char> {
    match choice {
        ThemeChoice::System => "OS 準拠"@,
        ThemeChoice::Dark => "ダーク"@,
        ThemeChoice::Light => "ライト"@,
    }
}

impl ThemeChoice {
    /// Names this choice.
    pub fn label(self) -> (s: &'static str)
        ensures
            s@ == theme_text(self),
    {
        match self {
            ThemeChoice::System => "OS 準拠",
            ThemeChoice::Dark => "ダーク",
            ThemeChoice::Light => "ライト",
        }
    }
}

/// Whether a choice comes out dark, given what the system prefers.
pub open spec fn is_dark(choice: ThemeChoice, system_dark: bool) -> bool {
    choice == ThemeChoice::Dark || (choice == ThemeChoice::System && system_dark)
}

/// Decides whether the screen is dark.
pub fn apply(choice: ThemeChoice, system_dark: bool) -> (dark: bool)
    ensures
        dark == is_dark(choice, system_dark),
{
    match choice {
        ThemeChoice::Dark => true,
        ThemeChoice::Light => false,
        ThemeChoice::System => system_dark,
    }
}

/// Reads the system setting "applications use the light theme": 0 means dark. Where it could not
/// be read, the system counts as light.
pub fn system_prefers_dark(apps_use_light_theme: Option<u32>) -> (dark: bool)
    ensures
        dark == (apps_use_light_theme == Some(0u32)),
{
    match apps_use_light_theme {
        Some(value) => value == 0,
        None => false,
    }
}

/// The value of the window attribute that makes a title bar dark.
pub fn title_bar_attribute(dark: bool) -> (value: i32)
    ensures
        value == if dark {
            1i32
        } else {
            0i32
        },
{
    if dark {
        1
    } else {
        0
    }
}

} // verus!
