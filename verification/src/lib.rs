//! A small background utility core: a global keyboard chord triggers playback
//! of a fixed audio clip at a user-configurable volume.
//!
//! The library holds the verified coordination logic: the shared volume cell
//! read by the playback trigger and written by the configuration sink, the
//! chord rule evaluated on every key event, and the per-trigger playback
//! session state machine. The operating-system hook, the audio device and the
//! configuration window live outside the library and drive it with plain
//! values.

pub mod chord;
pub mod playback;
pub mod setting;
pub mod volume;
pub mod watcher;
