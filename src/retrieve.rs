//! The count-then-fill protocol for result buffers of unknown size.
//!
//! A retrieval first calls the native entry point with capacity zero to learn
//! how many items exist, then calls it again with a buffer of exactly that
//! capacity. The host performs each call and reports back; these functions
//! decide what comes next.

use vstd::prelude::*;
use crate::error::SceneError;

verus! {

/// What a native retrieval call reported.
#[derive(Clone, Copy, Debug, PartialEq, Eq, Structural)]
pub struct CallReport {
    /// The signed status code of the call.
    pub status: i32,
    /// The item count that the call wrote back.
    pub count_output: u32,
}

/// Where a retrieval stands.
#[derive(Clone, Copy, Debug, PartialEq, Eq, Structural)]
pub enum RetrievalState {
    /// The sizing call (capacity zero) is outstanding.
    AwaitingCount,
    /// The fill call with this capacity is outstanding.
    AwaitingFill { capacity: u32 },
    /// The first `count` items of the filled buffer are the result.
    Complete { count: u32 },
    /// The retrieval failed.
    Failed { error: SceneError },
}

/// What the host does next.
#[derive(Clone, Copy, Debug, PartialEq, Eq, Structural)]
pub enum RetrievalAction {
    /// Make the native call with this capacity (zero: only report the count),
    /// backed by a buffer of exactly that many items.
    Call { capacity: u32 },
    /// Keep the first `count` items of the buffer of the last call.
    Deliver { count: u32 },
    /// Stop with this error; nothing of the buffer is kept.
    Abort { error: SceneError },
}

impl RetrievalState {
    /// Whether a native call is outstanding.
    pub open spec fn is_pending(self) -> bool {
        self is AwaitingCount || self is AwaitingFill
    }
}

/// The transition of the protocol on one call report.
pub open spec fn next_retrieval(state: RetrievalState, report: CallReport) -> (RetrievalState, RetrievalAction) {
    if report.status < 0 {
        let e = SceneError::NativeCallFailed(report.status);
        (RetrievalState::Failed { error: e }, RetrievalAction::Abort { error: e })
    } else {
        match state {
            RetrievalState::AwaitingCount => {
                if report.count_output == 0 {
                    (RetrievalState::Complete { count: 0 }, RetrievalAction::Deliver { count: 0 })
                } else {
                    (
                        RetrievalState::AwaitingFill { capacity: report.count_output },
                        RetrievalAction::Call { capacity: report.count_output },
                    )
                }
            },
            RetrievalState::AwaitingFill { capacity } => {
                if report.count_output > capacity {
                    let e = SceneError::ProtocolViolation;
                    (RetrievalState::Failed { error: e }, RetrievalAction::Abort { error: e })
                } else {
                    (
                        RetrievalState::Complete { count: report.count_output },
                        RetrievalAction::Deliver { count: report.count_output },
                    )
                }
            },
            _ => (state, RetrievalAction::Abort { error: SceneError::ProtocolViolation }),
        }
    }
}

/// Opens a retrieval: the sizing call comes first.
pub fn begin_retrieval() -> (r: (RetrievalState, RetrievalAction))
    ensures
        r == (RetrievalState::AwaitingCount, RetrievalAction::Call { capacity: 0 }),
{
    (RetrievalState::AwaitingCount, RetrievalAction::Call { capacity: 0 })
}

/// Advances a retrieval on the report of the call it was waiting for.
///
/// A negative status fails with that code. After the sizing call, a count of
/// zero completes with no items and no fill call; any other count asks for a
/// fill call of exactly that capacity. After the fill call, a count above the
/// capacity is a protocol violation; a count up to it completes with that
/// many items, so a runtime that found more items in between is capped.
pub fn retrieval_step(state: RetrievalState, report: CallReport) -> (r: (RetrievalState, RetrievalAction))
    requires
        state.is_pending(),
    ensures
        r == next_retrieval(state, report),
        report.status >= 0 && state is AwaitingCount && report.count_output > 0
            ==> r.1 == (RetrievalAction::Call { capacity: report.count_output }),
        report.status >= 0 && state is AwaitingCount && report.count_output == 0
            ==> r.1 == (RetrievalAction::Deliver { count: 0 }),
        report.status >= 0 && state is AwaitingFill && report.count_output > state->capacity
            ==> r.1 == (RetrievalAction::Abort { error: SceneError::ProtocolViolation }),
        report.status < 0 ==> r.1 == (RetrievalAction::Abort {
            error: SceneError::NativeCallFailed(report.status),
        }),
        r.0 is Failed <==> r.1 is Abort,
        r.0 is AwaitingFill <==> r.1 is Call,
{
    if report.status < 0 {
        let e = SceneError::NativeCallFailed(report.status);
        return (RetrievalState::Failed { error: e }, RetrievalAction::Abort { error: e });
    }
    match state {
        RetrievalState::AwaitingCount => {
            if report.count_output == 0 {
                (RetrievalState::Complete { count: 0 }, RetrievalAction::Deliver { count: 0 })
            } else {
                (
                    RetrievalState::AwaitingFill { capacity: report.count_output },
                    RetrievalAction::Call { capacity: report.count_output },
                )
            }
        },
        RetrievalState::AwaitingFill { capacity } => {
            if report.count_output > capacity {
                let e = SceneError::ProtocolViolation;
                (RetrievalState::Failed { error: e }, RetrievalAction::Abort { error: e })
            } else {
                (
                    RetrievalState::Complete { count: report.count_output },
                    RetrievalAction::Deliver { count: report.count_output },
                )
            }
        },
        _ => (state, RetrievalAction::Abort { error: SceneError::ProtocolViolation }),
    }
}

/// The items that a call wrote: the first `count` of its buffer.
pub fn take_written<T>(buffer: Vec<T>, count: u32) -> (r: Vec<T>)
    requires
        count <= buffer.len(),
    ensures
        r@ == buffer@.take(count as int),
{
    let mut b = buffer;
    b.truncate(count as usize);
    b
}

/// Whatever a runtime reports, a sizing call is followed by a fill call of
/// exactly the reported count when that count is positive, and by nothing
/// (an empty result) when it is zero.
pub proof fn lemma_fill_capacity_is_reported_count(n: u32)
    ensures
        next_retrieval(RetrievalState::AwaitingCount, CallReport { status: 0, count_output: n }).1
            == (if n == 0 {
            RetrievalAction::Deliver { count: 0 }
        } else {
            RetrievalAction::Call { capacity: n }
        }),
{
}

/// A fill call that reports more items than its capacity always fails with a
/// protocol violation, and delivers nothing.
pub proof fn lemma_overfull_fill_fails(capacity: u32, report: CallReport)
    requires
        report.status >= 0,
        report.count_output > capacity,
    ensures
        next_retrieval(RetrievalState::AwaitingFill { capacity }, report) == (
            RetrievalState::Failed { error: SceneError::ProtocolViolation },
            RetrievalAction::Abort { error: SceneError::ProtocolViolation },
        ),
{
}

} // verus!
