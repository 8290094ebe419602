//! Names of the application's persisted settings stores.
//!
//! Each store lives under a fixed key in the settings file; migrations
//! address a store through its key.

use vstd::prelude::*;

verus! {

/// Store types that migrations can edit.
#[derive(Debug, Clone, Copy, PartialEq, Eq, Structural)]
pub enum Store {
    GeneralSettings,
    Auth,
    Presets,
    RecordingSettings,
    Hotkeys,
}

/// The persisted key of each store.
pub open spec fn spec_key(store: Store) -> Seq<char> {
    match store {
        Store::GeneralSettings => "general_settings"@,
        Store::Auth => "auth"@,
        Store::Presets => "presets"@,
        Store::RecordingSettings => "recording_settings"@,
        Store::Hotkeys => "hotkeys"@,
    }
}

impl Store {
    /// The key this store is persisted under.
    pub fn key(&self) -> (k: &'static str)
        ensures
            k@ == spec_key(*self),
    {
        match self {
            Store::GeneralSettings => "general_settings",
            Store::Auth => "auth",
            Store::Presets => "presets",
            Store::RecordingSettings => "recording_settings",
            Store::Hotkeys => "hotkeys",
        }
    }
}

} // verus!
