//! Core logic of a local meeting recorder: the recording worker's state
//! machine, the session gate of the desktop commands, the model catalogue,
//! and the bookkeeping around local transcription.

pub mod capture;
pub mod models;
pub mod recorder;
pub mod session;
pub mod text;
pub mod transcript;

pub use recorder::{Command, RecordingController, SharedLevel, WorkerAction, WorkerEvent, WorkerPhase};
