//! Recognition driver: the per-chunk decision logic between the engine's
//! decoding state and the transcript buffer.
//!
//! The engine itself is an external collaborator; the driver takes the
//! decoding state it reported for one chunk, together with the finalized
//! text (fetched only when a result finalized), and decides the one
//! persistent effect: whether a line enters the transcript buffer.

use vstd::prelude::*;
use crate::transcript::TranscriptBuffer;
use crate::transcript::after_publish;

verus! {

/// The engine's per-chunk decoding state.
#[derive(Clone, Copy, Debug, PartialEq, Eq, Structural)]
pub enum DecodingState {
    /// No new finalized text yet; a partial hypothesis is discarded.
    Running,
    /// A stable hypothesis is ready to be fetched.
    Finalized,
    /// The engine could not process the chunk.
    Failed,
}

/// What the driver did with one chunk's outcome.
#[derive(Clone, Copy, Debug, PartialEq, Eq, Structural)]
pub enum DriverOutcome {
    /// The decoder is still running: nothing to publish.
    StillRunning,
    /// A non-empty finalized line was published into the buffer.
    Published,
    /// The finalized text was empty and was discarded, buffer untouched.
    DiscardedEmpty,
    /// Decoding failed; the caller may log a diagnostic, buffer untouched.
    DecodeFailed,
}

/// Applies one chunk's decoding outcome to the transcript buffer.
///
/// `text` is the finalized text when `state` is `Finalized`; for the other
/// states the caller has no text to hand over and passes `None`. The buffer
/// changes exactly when a non-empty line finalized: then the oldest line is
/// evicted and the new one appended. A failed chunk mutates nothing and
/// raises no error.
pub fn apply_decoding(buf: &mut TranscriptBuffer, state: DecodingState, text: Option<String>) -> (o:
    DriverOutcome)
    requires
        old(buf).wf(),
    ensures
        final(buf).wf(),
        (o == DriverOutcome::Published) <==> (state == DecodingState::Finalized
            && text is Some && text->0@.len() != 0),
        o == DriverOutcome::Published ==> final(buf)@ == after_publish(old(buf)@, text->0@),
        o != DriverOutcome::Published ==> final(buf)@ == old(buf)@,
        (o == DriverOutcome::StillRunning) <==> (state == DecodingState::Running),
        (o == DriverOutcome::DecodeFailed) <==> (state == DecodingState::Failed),
        (o == DriverOutcome::DiscardedEmpty) <==> (state == DecodingState::Finalized
            && (text is None || text->0@.len() == 0)),
{
    match state {
        DecodingState::Running => DriverOutcome::StillRunning,
        DecodingState::Failed => DriverOutcome::DecodeFailed,
        DecodingState::Finalized => {
            match text {
                None => DriverOutcome::DiscardedEmpty,
                Some(line) => {
                    if line.as_str().is_empty() {
                        DriverOutcome::DiscardedEmpty
                    } else {
                        buf.publish(line);
                        DriverOutcome::Published
                    }
                },
            }
        },
    }
}

} // verus!
