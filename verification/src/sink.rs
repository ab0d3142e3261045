//! The durable sink's completion discipline. The sink owns the output
//! file and wraps it in a buffered writer; after the encoder finalizes,
//! success may be reported only once the in-process buffers are flushed
//! to the file, the file handle is flushed, and — when the durability
//! flag is set — a storage-level data sync has completed. The driver
//! performs the operations in the planned order and reports success only
//! when every one of them succeeded.

use vstd::prelude::*;

verus! {

/// One storage-level operation owed after successful finalization.
#[derive(Debug, Clone, Copy, PartialEq, Eq, Structural)]
pub enum SinkOp {
    /// Flush the buffered writer into the file handle.
    FlushBuffer,
    /// Flush the file handle itself.
    FlushFile,
    /// Force a storage-level sync of the file's data.
    SyncData,
}

/// The operations owed before success may be reported, in order: flush
/// the buffer, flush the file, and, when the durability flag is set, sync
/// the data to stable storage.
pub open spec fn required_completion(fsync: bool) -> Seq<SinkOp> {
    if fsync {
        seq![SinkOp::FlushBuffer, SinkOp::FlushFile, SinkOp::SyncData]
    } else {
        seq![SinkOp::FlushBuffer, SinkOp::FlushFile]
    }
}

/// The completion plan for a run: exactly the operations of
/// [`required_completion`], in that order.
pub fn completion_ops(fsync: bool) -> (v: Vec<SinkOp>)
    ensures
        v@ == required_completion(fsync),
{
    let mut v: Vec<SinkOp> = Vec::new();
    v.push(SinkOp::FlushBuffer);
    v.push(SinkOp::FlushFile);
    if fsync {
        v.push(SinkOp::SyncData);
    }
    proof {
        assert(v@ =~= required_completion(fsync));
    }
    v
}

/// Decides whether success may be reported, given the operations that
/// actually completed, in the order they completed: success is owed
/// exactly when they are the required completion sequence.
pub fn completion_confirmed(executed: &Vec<SinkOp>, fsync: bool) -> (r: bool)
    ensures
        r == (executed@ == required_completion(fsync)),
{
    let expected = completion_ops(fsync);
    if executed.len() != expected.len() {
        assert(executed@.len() != required_completion(fsync).len());
        return false;
    }
    let n: usize = executed.len();
    let mut i: usize = 0;
    while i < n
        invariant
            n == executed@.len() == expected@.len(),
            expected@ == required_completion(fsync),
            i <= n,
            forall|j: int| 0 <= j < i ==> executed@[j] == expected@[j],
        decreases n - i,
    {
        let a = executed[i];
        let b = expected[i];
        if !matches!(
            (a, b),
            (SinkOp::FlushBuffer, SinkOp::FlushBuffer)
            | (SinkOp::FlushFile, SinkOp::FlushFile)
            | (SinkOp::SyncData, SinkOp::SyncData)
        ) {
            assert(executed@[i as int] != required_completion(fsync)[i as int]);
            return false;
        }
        i = i + 1;
    }
    proof {
        assert(executed@ =~= required_completion(fsync));
    }
    true
}

/// Durability law: when the durability flag is set, the storage-level
/// sync is among the required operations and is the last of them, so
/// success cannot be reported before the sync has completed. When the
/// flag is unset, no sync is required.
pub proof fn lemma_sync_gates_success(fsync: bool)
    ensures
        fsync ==> required_completion(fsync).last() == SinkOp::SyncData,
        fsync ==> required_completion(fsync).contains(SinkOp::SyncData),
        !fsync ==> !required_completion(fsync).contains(SinkOp::SyncData),
{
    if fsync {
        assert(required_completion(true)[2] == SinkOp::SyncData);
    } else {
        assert forall|k: int| 0 <= k < required_completion(false).len()
            implies required_completion(false)[k] != SinkOp::SyncData by {
            assert(required_completion(false)[0] == SinkOp::FlushBuffer);
            assert(required_completion(false)[1] == SinkOp::FlushFile);
        }
    }
}

} // verus!
