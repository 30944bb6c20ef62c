//! Runtime interaction flags shared by the recording commands.

use vstd::prelude::*;

verus! {

/// The flags the recording commands coordinate through. The surrounding
/// application keeps one instance per process and guards concurrent access
/// itself.
pub struct AppState {
    /// Currently recording (both toggle and hold modes).
    pub is_recording: bool,
    /// The push-to-talk key is currently held down.
    pub ptt_key_held: bool,
    /// The paste-last key is currently held down.
    pub paste_key_held: bool,
}

impl Default for AppState {
    /// A fresh state: nothing recording, nothing held.
    fn default() -> (s: AppState)
        ensures
            !s.is_recording,
            !s.ptt_key_held,
            !s.paste_key_held,
    {
        AppState { is_recording: false, ptt_key_held: false, paste_key_held: false }
    }
}

} // verus!
