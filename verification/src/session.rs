//! What is reported when a playback session ends. The caller starts the next
//! session in either case.

use vstd::prelude::*;

verus! {

/// The notice that follows every report: the connection is set up anew.
pub const RESTART_NOTICE: &'static str = "Restarting the connection.";

/// How a playback session ended.
#[derive(Clone, Copy, Debug, PartialEq, Eq, Structural)]
pub enum SessionEnd {
    /// The player ran out of audio.
    StreamEnded,
    /// The session could not be set up, or broke off with an error.
    Failed,
}

/// The report for a session that ended as `end` says.
pub open spec fn spec_end_report(end: SessionEnd) -> Seq<char> {
    match end {
        SessionEnd::StreamEnded => "Failed to receive new audio data from source."@,
        SessionEnd::Failed => "Failed to create decoder for audio stream."@,
    }
}

/// The report that is logged for a session that ended as `end` says.
pub fn end_report(end: SessionEnd) -> (report: &'static str)
    ensures
        report@ == spec_end_report(end),
{
    match end {
        SessionEnd::StreamEnded => "Failed to receive new audio data from source.",
        SessionEnd::Failed => "Failed to create decoder for audio stream.",
    }
}

} // verus!
