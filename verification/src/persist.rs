//! The settings kept between runs.
use vstd::prelude::*;
use crate::enums::AutomationRule;
use crate::profile::{is_default_profile, CustomEffect, Profile};

verus! {

/// Everything that is saved: the profiles, the custom effects, the profile
/// in use, whether the lights are switched off, and the window-title rules.
#[derive(Debug)]
pub struct Settings {
    pub profiles: Vec<Profile>,
    pub effects: Vec<CustomEffect>,
    pub current_profile: Profile,
    pub master_off: bool,
    pub automation_rules: Vec<AutomationRule>,
}

impl Settings {
    /// Settings made of the given parts.
    pub fn new(
        profiles: Vec<Profile>,
        effects: Vec<CustomEffect>,
        current_profile: Profile,
        master_off: bool,
        automation_rules: Vec<AutomationRule>,
    ) -> (r: Self)
        ensures
            r.profiles == profiles,
            r.effects == effects,
            r.current_profile == current_profile,
            r.master_off == master_off,
            r.automation_rules == automation_rules,
    {
        Self { profiles, effects, current_profile, master_off, automation_rules }
    }
}

impl Default for Settings {
    fn default() -> (r: Self)
        ensures
            r.profiles@.len() == 0,
            r.effects@.len() == 0,
            is_default_profile(r.current_profile),
            r.master_off == false,
            r.automation_rules@.len() == 0,
    {
        Self {
            profiles: Vec::new(),
            effects: Vec::new(),
            current_profile: Profile::default(),
            master_off: false,
            automation_rules: Vec::new(),
        }
    }
}

/// The path of the settings file, as the parts to join: the configured file
/// when it names an existing file; otherwise `settings.json` in the
/// program's directory under the local application data directory, when
/// there is one; otherwise `./settings.json`.
pub open spec fn spec_settings_path(
    local_app_data: Option<Seq<char>>,
    config_override: Option<Seq<char>>,
    override_is_file: bool,
) -> Seq<Seq<char>> {
    match config_override {
        Some(o) if override_is_file => seq![o],
        _ => match local_app_data {
            Some(d) => seq![d, "legion-kb-rgb"@, "settings.json"@],
            None => seq!["./settings.json"@],
        },
    }
}

/// The view of an optional string.
pub open spec fn opt_view(s: Option<String>) -> Option<Seq<char>> {
    match s {
        Some(x) => Some(x@),
        None => None,
    }
}

/// The parts of the settings file's path, given the local application data
/// directory, the configured path and whether that path is an existing file.
pub fn settings_path(
    local_app_data: Option<String>,
    config_override: Option<String>,
    override_is_file: bool,
) -> (r: Vec<String>)
    ensures
        r@.map_values(|p: String| p@) == spec_settings_path(opt_view(local_app_data), opt_view(config_override), override_is_file),
{
    let mut r: Vec<String> = Vec::new();
    match config_override {
        Some(o) if override_is_file => {
            r.push(o);
        },
        _ => match local_app_data {
            Some(d) => {
                r.push(d);
                r.push(String::from_str("legion-kb-rgb"));
                r.push(String::from_str("settings.json"));
            },
            None => {
                r.push(String::from_str("./settings.json"));
            },
        },
    }
    assert(r@.map_values(|p: String| p@) =~= spec_settings_path(opt_view(local_app_data), opt_view(config_override), override_is_file));
    r
}

} // verus!
