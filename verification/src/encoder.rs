//! The streaming encoder's decision core. The writer lifecycle is the
//! state machine `Uninitialized -> Initialized -> Finalized`: the first
//! batch initializes the writer with its schema and is written, every
//! later batch is written in arrival order, exhaustion finalizes the
//! trailer, and an upstream failure aborts the run at once. A sequence
//! that yields no batch at all never initializes the writer and leaves
//! the output untouched.
//!
//! The driver that performs the actual pulls and writes runs outside this
//! core; it reports each observation as a [`PullEvent`] — including a
//! write or finalize of its own that failed — and performs the
//! [`EncodeAction`] the encoder answers with.

use vstd::prelude::*;

verus! {

/// What one pull from the batch sequence yielded.
#[derive(Debug, Clone, Copy, PartialEq, Eq, Structural)]
pub enum PullEvent {
    /// The sequence yielded a batch.
    Batch,
    /// The sequence yielded an upstream failure.
    SourceFailure,
    /// The sequence is exhausted.
    Exhausted,
    /// The write or finalize the driver performed for the previous
    /// action failed.
    WriteFailure,
}

/// What the driver must do for the event it reported.
#[derive(Debug, Clone, Copy, PartialEq, Eq, Structural)]
pub enum EncodeAction {
    /// Initialize the writer from this first batch's schema, then write
    /// the batch.
    InitAndWriteFirst,
    /// Write this batch, in arrival order.
    WriteNext,
    /// Flush the writer's buffers and write the trailer metadata.
    FinishWriter,
    /// No element was ever yielded: leave the output untouched, so the
    /// destination stays a zero-length file.
    LeaveEmpty,
    /// Abort the run with the upstream error.
    AbortSource,
    /// Abort the run with the error the format writer raised.
    AbortEncoding,
}

/// The writer lifecycle phase, extended with the two ways a run ends
/// without finalizing: an empty sequence and an upstream failure.
#[derive(Debug, Clone, Copy, PartialEq, Eq, Structural)]
pub enum EncoderPhase {
    Uninitialized,
    Initialized,
    Finalized,
    ClosedEmpty,
    Failed,
}

/// The encoder's state: its lifecycle phase and how many batches it has
/// ordered written.
#[derive(Debug, Clone, Copy, PartialEq, Eq, Structural)]
pub struct Encoder {
    pub phase: EncoderPhase,
    pub written: u64,
}

/// One transition of the encoder: the successor state and the action owed
/// for the event.
pub open spec fn spec_step(e: Encoder, ev: PullEvent) -> (Encoder, EncodeAction) {
    match ev {
        PullEvent::Batch => {
            if e.phase == EncoderPhase::Uninitialized {
                (
                    Encoder { phase: EncoderPhase::Initialized, written: (e.written + 1) as u64 },
                    EncodeAction::InitAndWriteFirst,
                )
            } else {
                (
                    Encoder { phase: e.phase, written: (e.written + 1) as u64 },
                    EncodeAction::WriteNext,
                )
            }
        },
        PullEvent::Exhausted => {
            if e.phase == EncoderPhase::Uninitialized {
                (Encoder { phase: EncoderPhase::ClosedEmpty, written: e.written }, EncodeAction::LeaveEmpty)
            } else {
                (Encoder { phase: EncoderPhase::Finalized, written: e.written }, EncodeAction::FinishWriter)
            }
        },
        PullEvent::SourceFailure => {
            (Encoder { phase: EncoderPhase::Failed, written: e.written }, EncodeAction::AbortSource)
        },
        PullEvent::WriteFailure => {
            (Encoder { phase: EncoderPhase::Failed, written: e.written }, EncodeAction::AbortEncoding)
        },
    }
}

impl Encoder {
    /// The encoder still accepts events: it has neither finalized nor
    /// aborted.
    pub open spec fn active(self) -> bool {
        self.phase == EncoderPhase::Uninitialized || self.phase == EncoderPhase::Initialized
    }

    /// A fresh encoder: uninitialized, nothing written.
    pub fn new() -> (e: Encoder)
        ensures
            e.phase == EncoderPhase::Uninitialized,
            e.written == 0,
    {
        Encoder { phase: EncoderPhase::Uninitialized, written: 0 }
    }

    /// Feeds one observation to the encoder and returns the action the
    /// driver owes for it. The first batch initializes the writer, later
    /// batches are written in order, exhaustion finalizes exactly once
    /// (or leaves an untouched output when nothing was ever yielded), and
    /// an upstream failure or a failed write aborts. No batch is accepted
    /// after the writer has finalized or the run has failed; the one
    /// observation accepted after finalizing is that the finalize itself
    /// failed.
    pub fn step(&mut self, ev: PullEvent) -> (a: EncodeAction)
        requires
            old(self).active() || (ev == PullEvent::WriteFailure && old(self).phase
                == EncoderPhase::Finalized),
            old(self).written < u64::MAX,
        ensures
            *final(self) == spec_step(*old(self), ev).0,
            a == spec_step(*old(self), ev).1,
            ev == PullEvent::Batch ==> final(self).written == old(self).written + 1
                && final(self).phase == EncoderPhase::Initialized,
            ev == PullEvent::Batch && old(self).phase == EncoderPhase::Uninitialized ==>
                a == EncodeAction::InitAndWriteFirst,
            ev == PullEvent::Batch && old(self).phase == EncoderPhase::Initialized ==>
                a == EncodeAction::WriteNext,
            ev == PullEvent::Exhausted ==> final(self).written == old(self).written,
            ev == PullEvent::Exhausted && old(self).phase == EncoderPhase::Uninitialized ==>
                a == EncodeAction::LeaveEmpty && final(self).phase == EncoderPhase::ClosedEmpty,
            ev == PullEvent::Exhausted && old(self).phase == EncoderPhase::Initialized ==>
                a == EncodeAction::FinishWriter && final(self).phase == EncoderPhase::Finalized,
            ev == PullEvent::SourceFailure ==> a == EncodeAction::AbortSource
                && final(self).phase == EncoderPhase::Failed && final(self).written == old(self).written,
            ev == PullEvent::WriteFailure ==> a == EncodeAction::AbortEncoding
                && final(self).phase == EncoderPhase::Failed && final(self).written == old(self).written,
    {
        match ev {
            PullEvent::Batch => {
                let first = matches!(self.phase, EncoderPhase::Uninitialized);
                self.phase = EncoderPhase::Initialized;
                self.written = self.written + 1;
                if first {
                    EncodeAction::InitAndWriteFirst
                } else {
                    EncodeAction::WriteNext
                }
            },
            PullEvent::Exhausted => {
                if matches!(self.phase, EncoderPhase::Uninitialized) {
                    self.phase = EncoderPhase::ClosedEmpty;
                    EncodeAction::LeaveEmpty
                } else {
                    self.phase = EncoderPhase::Finalized;
                    EncodeAction::FinishWriter
                }
            },
            PullEvent::SourceFailure => {
                self.phase = EncoderPhase::Failed;
                EncodeAction::AbortSource
            },
            PullEvent::WriteFailure => {
                self.phase = EncoderPhase::Failed;
                EncodeAction::AbortEncoding
            },
        }
    }
}

} // verus!
