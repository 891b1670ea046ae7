//! The desktop commands' own record of whether a recording runs, and the
//! validation of the storage folder the user picks.

use crate::recorder::{already_recording_message, nothing_recording_message};
use crate::text::{trim, trimmed};
use std::path::PathBuf;
use vstd::prelude::*;
use vstd::string::*;

verus! {

/// Whether the desktop commands consider a recording to be running.
#[derive(PartialEq, Eq, Structural, Clone, Copy, Debug)]
pub struct RecordingFlag {
    pub recording: bool,
}

impl RecordingFlag {
    /// No recording runs when the application starts.
    pub fn new() -> (flag: Self)
        ensures
            !flag.recording,
    {
        RecordingFlag { recording: false }
    }

    /// A start is refused while a recording runs.
    pub fn check_start(&self) -> (r: Result<(), String>)
        ensures
            r is Ok <==> !self.recording,
            r matches Err(message) ==> message@ == already_recording_message(),
    {
        if self.recording {
            Err(String::from_str("A recording is already in progress"))
        } else {
            Ok(())
        }
    }

    /// Records how an accepted start went: the recording runs exactly when
    /// the start succeeded. The outcome is handed back unchanged.
    pub fn finish_start(&mut self, outcome: Result<(), String>) -> (r: Result<(), String>)
        requires
            !old(self).recording,
        ensures
            final(self).recording == (outcome is Ok),
            r == outcome,
    {
        self.recording = outcome.is_ok();
        outcome
    }

    /// A stop is refused while no recording runs.
    pub fn check_stop(&self) -> (r: Result<(), String>)
        ensures
            r is Ok <==> self.recording,
            r matches Err(message) ==> message@ == nothing_recording_message(),
    {
        if self.recording {
            Ok(())
        } else {
            Err(String::from_str("No recording is in progress"))
        }
    }

    /// Records how an accepted stop went: the recording counts as finished
    /// only when the stop succeeded; after a failed stop it still counts as
    /// running. The outcome is handed back unchanged.
    pub fn finish_stop(&mut self, outcome: Result<PathBuf, String>) -> (r: Result<PathBuf, String>)
        requires
            old(self).recording,
        ensures
            final(self).recording == (outcome is Err),
            r == outcome,
    {
        self.recording = outcome.is_err();
        outcome
    }
}

/// A successful start followed by a successful stop leaves no recording
/// running, and a start is accepted again afterwards.
pub proof fn lemma_start_then_stop_returns_to_idle(
    before: RecordingFlag,
    started: RecordingFlag,
    stopped: RecordingFlag,
    start: Result<(), String>,
    stop: Result<PathBuf, String>,
)
    requires
        !before.recording,
        start is Ok,
        stop is Ok,
        started.recording == (start is Ok),
        stopped.recording == (stop is Err),
    ensures
        started.recording,
        !stopped.recording,
        stopped == before,
{
}

/// After a stop that failed, the session still counts as recording: a new
/// start is refused, and only a stop that succeeds clears the flag.
pub proof fn lemma_failed_stop_keeps_session_busy(
    before: RecordingFlag,
    after: RecordingFlag,
    stop: Result<PathBuf, String>,
)
    requires
        before.recording,
        stop is Err,
        after.recording == (stop is Err),
    ensures
        after.recording,
        after == before,
{
}

pub open spec fn empty_folder_message() -> Seq<char> {
    "Choose a folder for recordings and transcripts"@
}

/// The storage folder to save, from what the user entered: the entry
/// without surrounding white space, which must not be empty.
pub fn storage_folder(entered: &str) -> (r: Result<String, String>)
    ensures
        r is Ok <==> trimmed(entered@).len() > 0,
        r matches Ok(folder) ==> folder@ == trimmed(entered@),
        r matches Err(message) ==> message@ == empty_folder_message(),
{
    let folder = trim(entered);
    if folder.unicode_len() == 0 {
        Err(String::from_str("Choose a folder for recordings and transcripts"))
    } else {
        Ok(String::from_str(folder))
    }
}

/// Saving the folder that was saved before keeps it as it is.
pub proof fn lemma_saved_folder_is_stable(entered: Seq<char>)
    requires
        trimmed(entered).len() > 0,
    ensures
        trimmed(trimmed(entered)) == trimmed(entered),
        trimmed(trimmed(entered)).len() > 0,
{
    crate::text::lemma_trim_idempotent(entered);
}

} // verus!
