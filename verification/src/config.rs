//! Application configuration values.
//!
//! Loading and saving the configuration file happens outside the library;
//! here live the configuration data itself, the legacy-field migration
//! applied after a load, and the credential update.

use vstd::prelude::*;

verus! {

/// Persisted application settings.
#[derive(Debug)]
pub struct AppConfig {
    pub ai_api_key: Option<String>,
    pub ai_provider: Option<String>,
    /// Superseded by `mic_device_index`; kept for configurations written
    /// by older releases and migrated on load.
    pub selected_audio_device: Option<usize>,
    pub mic_device_index: Option<usize>,
    pub system_device_index: Option<usize>,
}

impl core::default::Default for AppConfig {
    /// The configuration of a fresh installation: nothing chosen yet.
    fn default() -> (c: AppConfig)
        ensures
            c.ai_api_key is None,
            c.ai_provider is None,
            c.selected_audio_device is None,
            c.mic_device_index is None,
            c.system_device_index is None,
    {
        AppConfig {
            ai_api_key: None,
            ai_provider: None,
            selected_audio_device: None,
            mic_device_index: None,
            system_device_index: None,
        }
    }
}

impl AppConfig {
    /// Migrate a legacy device selection: a configuration that still
    /// carries `selected_audio_device` but no `mic_device_index` has the
    /// old value copied over. Returns whether anything changed (the caller
    /// then persists the migrated configuration).
    pub fn migrate_legacy_device(&mut self) -> (migrated: bool)
        ensures
            migrated == (old(self).selected_audio_device is Some && old(
                self,
            ).mic_device_index is None),
            migrated ==> final(self).mic_device_index == old(self).selected_audio_device,
            !migrated ==> final(self).mic_device_index == old(self).mic_device_index,
            final(self).ai_api_key == old(self).ai_api_key,
            final(self).ai_provider == old(self).ai_provider,
            final(self).selected_audio_device == old(self).selected_audio_device,
            final(self).system_device_index == old(self).system_device_index,
    {
        if self.selected_audio_device.is_some() && self.mic_device_index.is_none() {
            self.mic_device_index = self.selected_audio_device;
            true
        } else {
            false
        }
    }

    /// Store the credentials for the text-generation service. Persisting
    /// them happens outside the library.
    pub fn set_ai_credentials(&mut self, api_key: &str, provider: &str)
        ensures
            final(self).ai_api_key is Some,
            final(self).ai_api_key->0@ == api_key@,
            final(self).ai_provider is Some,
            final(self).ai_provider->0@ == provider@,
            final(self).selected_audio_device == old(self).selected_audio_device,
            final(self).mic_device_index == old(self).mic_device_index,
            final(self).system_device_index == old(self).system_device_index,
    {
        self.ai_api_key = Some(api_key.to_owned());
        self.ai_provider = Some(provider.to_owned());
    }
}

} // verus!
