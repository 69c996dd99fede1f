//! Decision logic of a desktop voice assistant: the assistant's conversation
//! with the Gemini service, the tools it may run, the push-to-talk hotkey,
//! the key set-up flow and the small pieces of desktop integration.

pub mod text;
pub mod tools;
pub mod desktop;
pub mod gemini;
pub mod hotkey;
pub mod setup;
pub mod recorder;

