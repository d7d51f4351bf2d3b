//! The settings that are kept between runs.

use vstd::prelude::*;

use crate::theme::ThemeChoice;

verus! {

/// The settings.
#[derive(Copy, Clone, Debug, PartialEq, Eq, Structural)]
pub struct Config {
    pub theme: ThemeChoice,
}

impl Default for Config {
    fn default() -> (c: Self)
        ensures
            c == (Config { theme: ThemeChoice::System }),
    {
        Config { theme: ThemeChoice::System }
    }
}

/// What became of the attempt to read the settings file.
#[derive(Copy, Clone, Debug, PartialEq, Eq, Structural)]
pub enum ConfigFile {
    /// There is no place to keep settings.
    NoPath,
    /// The file could not be read.
    Unreadable,
    /// The file holds no settings.
    Malformed,
    /// The file holds these settings.
    Parsed(Config),
}

impl Config {
    /// The settings to start with: those of the file, or the default ones.
    pub fn load(file: ConfigFile) -> (c: Config)
        ensures
            file matches ConfigFile::Parsed(p) ==> c == p,
            !(file is Parsed) ==> c == (Config { theme: ThemeChoice::System }),
    {
        match file {
            ConfigFile::Parsed(p) => p,
            _ => Config::default(),
        }
    }
}

} // verus!
