//! What is kept between runs: the profile, and settings of the program.

use vstd::prelude::*;

use crate::activity::Activity;

verus! {

/// Settings of the program; there are none yet.
#[derive(Clone, Copy, Debug, PartialEq, Eq, Structural)]
pub struct Settings {}

impl Default for Settings {
    fn default() -> (r: Self)
        ensures
            r == (Settings {}),
    {
        Settings {}
    }
}

/// The contents of the settings file.
#[derive(Clone, Debug)]
pub struct SettingsFile {
    pub settings: Settings,
    pub activity: Activity,
}

impl Default for SettingsFile {
    /// The settings and profile of a first run.
    fn default() -> (r: Self)
        ensures
            r.settings == (Settings {}),
            r.activity.is_blank(),
    {
        SettingsFile { settings: Settings::default(), activity: Activity::default() }
    }
}

} // verus!
