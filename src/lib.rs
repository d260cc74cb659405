//! Push-to-talk dictation core: the hotkey state machine, the audio capture
//! actor, and the line protocol spoken with the transcription process.

pub mod capture;
pub mod config;
pub mod focus;
pub mod history;
pub mod hotkey;
pub mod output;
pub mod sidecar;
pub mod text;
pub mod wav;
