//! The whole-run model of the pipeline: what a complete traversal of a
//! batch sequence writes, which actions it performs in which order, and
//! how it ends. The laws here pin the two delicate behaviors down: a run
//! over an empty sequence never initializes the writer and leaves the
//! output untouched, and a run that meets an upstream failure aborts at
//! once, having written exactly the batches that arrived before it.

use vstd::prelude::*;
use crate::encoder::{EncodeAction, Encoder, EncoderPhase, PullEvent};

verus! {

/// One element of the batch sequence: either a batch or an upstream
/// failure.
#[derive(Debug, Clone, Copy, PartialEq, Eq, Structural)]
pub enum SourceItem {
    /// The sequence yielded a batch.
    Batch,
    /// The sequence yielded an upstream failure.
    Failure,
}

/// How a complete run ends.
#[derive(Debug, Clone, Copy, PartialEq, Eq, Structural)]
pub enum RunOutcome {
    /// The sequence yielded nothing: no writer was initialized and the
    /// output stays a zero-length file, not a minimal valid container.
    EmptyOutput,
    /// Every element was a batch; the trailer was written.
    Finalized,
    /// An upstream failure aborted the run before the trailer.
    SourceFailed,
}

/// How many batches a run over `items` writes: every batch before the
/// first failure, and none after it.
pub open spec fn spec_written(items: Seq<SourceItem>) -> nat
    decreases items.len(),
{
    if items.len() == 0 {
        0
    } else if items[0] == SourceItem::Failure {
        0
    } else {
        1 + spec_written(items.skip(1))
    }
}

/// How a run over `items` ends: nothing yielded means an untouched
/// output, an all-batch sequence finalizes, and any failure aborts.
pub open spec fn spec_outcome(items: Seq<SourceItem>) -> RunOutcome {
    if items.len() == 0 {
        RunOutcome::EmptyOutput
    } else if forall|i: int| 0 <= i < items.len() ==> items[i] == SourceItem::Batch {
        RunOutcome::Finalized
    } else {
        RunOutcome::SourceFailed
    }
}

/// The actions a run performs after the writer is initialized, for the
/// remaining `items`.
pub open spec fn spec_rest_actions(items: Seq<SourceItem>) -> Seq<EncodeAction>
    decreases items.len(),
{
    if items.len() == 0 {
        seq![EncodeAction::FinishWriter]
    } else if items[0] == SourceItem::Failure {
        seq![EncodeAction::AbortSource]
    } else {
        seq![EncodeAction::WriteNext] + spec_rest_actions(items.skip(1))
    }
}

/// The actions a run over `items` performs, in order.
pub open spec fn spec_actions(items: Seq<SourceItem>) -> Seq<EncodeAction> {
    if items.len() == 0 {
        seq![EncodeAction::LeaveEmpty]
    } else if items[0] == SourceItem::Failure {
        seq![EncodeAction::AbortSource]
    } else {
        seq![EncodeAction::InitAndWriteFirst] + spec_rest_actions(items.skip(1))
    }
}

/// A run over a sequence with zero batches writes nothing, never
/// initializes the writer, and leaves the output a zero-length file: its
/// only action is to leave the output untouched.
pub proof fn lemma_empty_run()
    ensures
        spec_outcome(Seq::<SourceItem>::empty()) == RunOutcome::EmptyOutput,
        spec_written(Seq::<SourceItem>::empty()) == 0,
        spec_actions(Seq::<SourceItem>::empty()) == seq![EncodeAction::LeaveEmpty],
{
}

proof fn lemma_rest_fail_fast(items: Seq<SourceItem>, n: int)
    requires
        0 <= n < items.len(),
        items[n] == SourceItem::Failure,
        forall|j: int| 0 <= j < n ==> items[j] == SourceItem::Batch,
    ensures
        forall|k: int|
            0 <= k < spec_rest_actions(items).len() ==> spec_rest_actions(items)[k]
                != EncodeAction::FinishWriter,
        spec_rest_actions(items).last() == EncodeAction::AbortSource,
    decreases n,
{
    if n == 0 {
        assert(spec_rest_actions(items) == seq![EncodeAction::AbortSource]);
    } else {
        let rest = items.skip(1);
        assert(forall|j: int| 0 <= j < n - 1 ==> rest[j] == SourceItem::Batch);
        assert(rest[n - 1] == SourceItem::Failure);
        lemma_rest_fail_fast(rest, n - 1);
        assert(spec_rest_actions(items) == seq![EncodeAction::WriteNext] + spec_rest_actions(
            rest,
        ));
    }
}

/// Fail-fast: when the element at position `n` is an upstream failure and
/// every earlier element is a batch, the run ends with that failure,
/// writes exactly the `n` batches that arrived before it, never
/// finalizes, and its last action is the abort.
pub proof fn lemma_fail_fast(items: Seq<SourceItem>, n: int)
    requires
        0 <= n < items.len(),
        items[n] == SourceItem::Failure,
        forall|j: int| 0 <= j < n ==> items[j] == SourceItem::Batch,
    ensures
        spec_outcome(items) == RunOutcome::SourceFailed,
        spec_written(items) == n,
        forall|k: int|
            0 <= k < spec_actions(items).len() ==> spec_actions(items)[k]
                != EncodeAction::FinishWriter,
        spec_actions(items).last() == EncodeAction::AbortSource,
    decreases n,
{
    assert(spec_outcome(items) == RunOutcome::SourceFailed);
    if n == 0 {
        assert(spec_actions(items) == seq![EncodeAction::AbortSource]);
    } else {
        let rest = items.skip(1);
        assert(forall|j: int| 0 <= j < n - 1 ==> rest[j] == SourceItem::Batch);
        assert(rest[n - 1] == SourceItem::Failure);
        lemma_fail_fast(rest, n - 1);
        lemma_rest_fail_fast(rest, n - 1);
        assert(spec_actions(items) == seq![EncodeAction::InitAndWriteFirst]
            + spec_rest_actions(rest));
    }
}

/// The plan of one run: the actions performed in order, how the run
/// ends, and how many batches it writes.
#[derive(Debug, Clone, PartialEq, Eq)]
pub struct RunPlan {
    pub actions: Vec<EncodeAction>,
    pub outcome: RunOutcome,
    pub written: u64,
}

/// Drives the encoder over a complete in-memory sequence and returns the
/// run's plan: exactly the actions, outcome and write count of the run
/// model. The driver that works against a live asynchronous sequence
/// performs the same transitions one event at a time.
pub fn plan_run(items: &Vec<SourceItem>) -> (p: RunPlan)
    requires
        items@.len() < u64::MAX,
    ensures
        p.actions@ == spec_actions(items@),
        p.outcome == spec_outcome(items@),
        p.written == spec_written(items@),
{
    let ghost all = items@;
    let mut enc = Encoder::new();
    let mut actions: Vec<EncodeAction> = Vec::new();
    let n: usize = items.len();
    let mut i: usize = 0;
    while i < n
        invariant
            n == all.len(),
            all == items@,
            i <= n,
            n < u64::MAX,
            enc.written == i,
            enc.phase == (if i == 0 {
                EncoderPhase::Uninitialized
            } else {
                EncoderPhase::Initialized
            }),
            forall|j: int| 0 <= j < i ==> all[j] == SourceItem::Batch,
            i == 0 ==> actions@ == Seq::<EncodeAction>::empty(),
            i > 0 ==> actions@ + spec_rest_actions(all.skip(i as int)) == spec_actions(all),
            i > 0 ==> actions@.len() == i,
        decreases n - i,
    {
        proof {
            assert(all.skip(i as int)[0] == all[i as int]);
            assert(all.skip(i as int).skip(1) =~= all.skip(i as int + 1));
        }
        let ghost prev = actions@;
        match items[i] {
            SourceItem::Batch => {
                let a = enc.step(PullEvent::Batch);
                actions.push(a);
                proof {
                    if i == 0 {
                        assert(spec_actions(all) == seq![EncodeAction::InitAndWriteFirst]
                            + spec_rest_actions(all.skip(1)));
                        assert(actions@ + spec_rest_actions(all.skip(1)) =~= spec_actions(all));
                    } else {
                        assert(spec_rest_actions(all.skip(i as int)) == seq![
                            EncodeAction::WriteNext,
                        ] + spec_rest_actions(all.skip(i as int + 1)));
                        assert(actions@ + spec_rest_actions(all.skip(i as int + 1))
                            =~= prev + spec_rest_actions(all.skip(i as int)));
                    }
                }
                i = i + 1;
            },
            SourceItem::Failure => {
                let a = enc.step(PullEvent::SourceFailure);
                actions.push(a);
                proof {
                    lemma_fail_fast(all, i as int);
                    lemma_spec_written_prefix(all, i as int);
                    if i == 0 {
                        assert(actions@ =~= spec_actions(all));
                    } else {
                        assert(spec_rest_actions(all.skip(i as int)) == seq![
                            EncodeAction::AbortSource,
                        ]);
                        assert(actions@ =~= prev + spec_rest_actions(
                            all.skip(i as int),
                        ));
                    }
                }
                return RunPlan {
                    actions,
                    outcome: RunOutcome::SourceFailed,
                    written: enc.written,
                };
            },
        }
    }
    let ghost done = actions@;
    let a = enc.step(PullEvent::Exhausted);
    actions.push(a);
    proof {
        if n == 0 {
            assert(actions@ =~= spec_actions(all));
        } else {
            assert(all.skip(n as int).len() == 0);
            assert(spec_rest_actions(all.skip(n as int)) == seq![EncodeAction::FinishWriter]);
            assert(actions@ =~= done + spec_rest_actions(all.skip(n as int)));
        }
        lemma_spec_written_all(all);
    }
    let outcome = if n == 0 {
        RunOutcome::EmptyOutput
    } else {
        RunOutcome::Finalized
    };
    RunPlan { actions, outcome, written: enc.written }
}

/// The write count of a run whose first `n` elements are batches and
/// whose element `n` is a failure is exactly `n`.
proof fn lemma_spec_written_prefix(items: Seq<SourceItem>, n: int)
    requires
        0 <= n < items.len(),
        items[n] == SourceItem::Failure,
        forall|j: int| 0 <= j < n ==> items[j] == SourceItem::Batch,
    ensures
        spec_written(items) == n,
    decreases n,
{
    if n > 0 {
        let rest = items.skip(1);
        assert(forall|j: int| 0 <= j < n - 1 ==> rest[j] == SourceItem::Batch);
        assert(rest[n - 1] == SourceItem::Failure);
        lemma_spec_written_prefix(rest, n - 1);
    }
}

/// The write count of an all-batch run is the sequence's whole length.
proof fn lemma_spec_written_all(items: Seq<SourceItem>)
    requires
        forall|j: int| 0 <= j < items.len() ==> items[j] == SourceItem::Batch,
    ensures
        spec_written(items) == items.len(),
    decreases items.len(),
{
    if items.len() > 0 {
        let rest = items.skip(1);
        assert(forall|j: int| 0 <= j < rest.len() ==> rest[j] == SourceItem::Batch);
        lemma_spec_written_all(rest);
    }
}

} // verus!
