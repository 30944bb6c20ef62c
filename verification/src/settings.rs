//! The application settings record and its owner.
//!
//! `AppSettings` holds the three named hotkey slots and the independent
//! scalar fields. `SettingsManager` owns one instance; every mutator
//! replaces exactly the field it names and leaves the rest unchanged. The
//! surrounding application keeps the manager behind its lock and writes the
//! settings through to storage after each successful mutation.

use vstd::prelude::*;
use crate::hotkey::{
    is_default_hold, is_default_paste_last, is_default_toggle, HotkeyConfig,
};

verus! {

/// Which sections of the transcript clean-up prompt are enabled.
#[derive(Clone, Copy, Debug)]
pub struct CleanupPromptSections {
    pub remove_fillers: bool,
    pub fix_punctuation: bool,
    pub apply_formatting: bool,
}

/// The persisted application settings: three named hotkey slots plus
/// independent scalar fields with no cross-field invariants.
#[derive(Clone, Debug)]
pub struct AppSettings {
    pub toggle_hotkey: HotkeyConfig,
    pub hold_hotkey: HotkeyConfig,
    pub paste_last_hotkey: HotkeyConfig,
    pub selected_mic: Option<String>,
    pub sound_enabled: bool,
    pub cleanup_prompt_sections: Option<CleanupPromptSections>,
    pub stt_provider: Option<String>,
    pub llm_provider: Option<String>,
    pub auto_mute_audio: bool,
    pub stt_timeout_ms: Option<u64>,
}

impl Default for AppSettings {
    /// The settings a fresh installation starts from: the three factory
    /// default hotkeys and neutral scalar values.
    fn default() -> (s: AppSettings)
        ensures
            is_default_toggle(s.toggle_hotkey),
            is_default_hold(s.hold_hotkey),
            is_default_paste_last(s.paste_last_hotkey),
            s.selected_mic is None,
            s.sound_enabled,
            s.cleanup_prompt_sections is None,
            s.stt_provider is None,
            s.llm_provider is None,
            !s.auto_mute_audio,
            s.stt_timeout_ms is None,
    {
        AppSettings {
            toggle_hotkey: HotkeyConfig::default_toggle(),
            hold_hotkey: HotkeyConfig::default_hold(),
            paste_last_hotkey: HotkeyConfig::default_paste_last(),
            selected_mic: None,
            sound_enabled: true,
            cleanup_prompt_sections: None,
            stt_provider: None,
            llm_provider: None,
            auto_mute_audio: false,
            stt_timeout_ms: None,
        }
    }
}

/// The owner of the one live `AppSettings` instance.
pub struct SettingsManager {
    pub settings: AppSettings,
}

impl SettingsManager {
    /// Starts the manager from settings loaded by the storage layer.
    pub fn new(initial: AppSettings) -> (m: SettingsManager)
        ensures
            m.settings == initial,
    {
        SettingsManager { settings: initial }
    }

    /// The current settings.
    pub fn get(&self) -> (r: &AppSettings)
        ensures
            *r == self.settings,
    {
        &self.settings
    }

    /// Wholesale replacement; no conflict validation by design.
    pub fn update(&mut self, new_settings: AppSettings)
        ensures
            final(self).settings == new_settings,
    {
        self.settings = new_settings;
    }

    /// Replaces the toggle hotkey slot and nothing else.
    pub fn update_toggle_hotkey(&mut self, hotkey: HotkeyConfig)
        ensures
            final(self).settings == (AppSettings { toggle_hotkey: hotkey, ..old(self).settings }),
    {
        self.settings.toggle_hotkey = hotkey;
    }

    /// Replaces the hold hotkey slot and nothing else.
    pub fn update_hold_hotkey(&mut self, hotkey: HotkeyConfig)
        ensures
            final(self).settings == (AppSettings { hold_hotkey: hotkey, ..old(self).settings }),
    {
        self.settings.hold_hotkey = hotkey;
    }

    /// Replaces the paste-last hotkey slot and nothing else.
    pub fn update_paste_last_hotkey(&mut self, hotkey: HotkeyConfig)
        ensures
            final(self).settings == (AppSettings {
                paste_last_hotkey: hotkey,
                ..old(self).settings
            }),
    {
        self.settings.paste_last_hotkey = hotkey;
    }

    /// Replaces the selected microphone id and nothing else.
    pub fn update_selected_mic(&mut self, mic_id: Option<String>)
        ensures
            final(self).settings == (AppSettings { selected_mic: mic_id, ..old(self).settings }),
    {
        self.settings.selected_mic = mic_id;
    }

    /// Replaces the sound-enabled flag and nothing else.
    pub fn update_sound_enabled(&mut self, enabled: bool)
        ensures
            final(self).settings == (AppSettings { sound_enabled: enabled, ..old(self).settings }),
    {
        self.settings.sound_enabled = enabled;
    }

    /// Replaces the clean-up prompt sections and nothing else.
    pub fn update_cleanup_prompt_sections(&mut self, sections: Option<CleanupPromptSections>)
        ensures
            final(self).settings == (AppSettings {
                cleanup_prompt_sections: sections,
                ..old(self).settings
            }),
    {
        self.settings.cleanup_prompt_sections = sections;
    }

    /// Replaces the speech-to-text provider id and nothing else.
    pub fn update_stt_provider(&mut self, provider: Option<String>)
        ensures
            final(self).settings == (AppSettings { stt_provider: provider, ..old(self).settings }),
    {
        self.settings.stt_provider = provider;
    }

    /// Replaces the language-model provider id and nothing else.
    pub fn update_llm_provider(&mut self, provider: Option<String>)
        ensures
            final(self).settings == (AppSettings { llm_provider: provider, ..old(self).settings }),
    {
        self.settings.llm_provider = provider;
    }

    /// Replaces the auto-mute flag and nothing else.
    pub fn update_auto_mute_audio(&mut self, enabled: bool)
        ensures
            final(self).settings == (AppSettings {
                auto_mute_audio: enabled,
                ..old(self).settings
            }),
    {
        self.settings.auto_mute_audio = enabled;
    }

    /// Replaces the speech-to-text timeout (in milliseconds) and nothing
    /// else.
    pub fn update_stt_timeout(&mut self, timeout_ms: Option<u64>)
        ensures
            final(self).settings == (AppSettings {
                stt_timeout_ms: timeout_ms,
                ..old(self).settings
            }),
    {
        self.settings.stt_timeout_ms = timeout_ms;
    }

    /// Overwrites all three hotkey slots with their factory defaults,
    /// leaves every scalar field unchanged, and reports that a restart is
    /// needed for the new hotkeys to take effect.
    pub fn reset_hotkeys_to_defaults(&mut self) -> (restart: bool)
        ensures
            restart,
            is_default_toggle(final(self).settings.toggle_hotkey),
            is_default_hold(final(self).settings.hold_hotkey),
            is_default_paste_last(final(self).settings.paste_last_hotkey),
            final(self).settings.selected_mic == old(self).settings.selected_mic,
            final(self).settings.sound_enabled == old(self).settings.sound_enabled,
            final(self).settings.cleanup_prompt_sections
                == old(self).settings.cleanup_prompt_sections,
            final(self).settings.stt_provider == old(self).settings.stt_provider,
            final(self).settings.llm_provider == old(self).settings.llm_provider,
            final(self).settings.auto_mute_audio == old(self).settings.auto_mute_audio,
            final(self).settings.stt_timeout_ms == old(self).settings.stt_timeout_ms,
    {
        self.update_toggle_hotkey(HotkeyConfig::default_toggle());
        self.update_hold_hotkey(HotkeyConfig::default_hold());
        self.update_paste_last_hotkey(HotkeyConfig::default_paste_last());
        true
    }
}

} // verus!
