//! Frame sampling: a capture session performs a fixed number of capture
//! attempts against one resolved target, records each outcome under the
//! configured failure policy, and returns the ordered frame sequence.
//!
//! The capture attempts themselves — reading pixels from the platform and
//! the timed wait between ticks — are the calling program's business: it
//! drives the loop, asks the session for the inter-frame delay, and hands
//! each outcome back. Every decision about what an outcome does to the
//! session is made and proved here.

use vstd::prelude::*;

use crate::target::{frame_wf, same_target, CaptureError, CaptureTarget, RawFrame};

verus! {

/// Milliseconds in a second; the inter-frame delay is this divided by the
/// frame rate, truncating.
pub const MILLIS_PER_SECOND: u64 = 1000;

/// What a single capture failure does to the rest of the session.
#[derive(Clone, Copy, Debug, PartialEq, Eq, Structural)]
pub enum FailurePolicy {
    /// Any failure aborts the whole session; frames already captured are
    /// discarded.
    Strict,
    /// A failure is counted and the loop goes on; the final sequence may
    /// be shorter than requested.
    BestEffort,
}

/// What one capture attempt against the target produced.
#[derive(Debug)]
pub enum CaptureOutcome {
    /// The backend returned an image, already converted to an owned frame.
    Captured(RawFrame),
    /// The backend failed to capture.
    Failed,
}

/// Where a session stands; `Capturing` is re-entered for each tick, the
/// other two are terminal.
#[derive(Clone, Copy, Debug, PartialEq, Eq, Structural)]
pub enum SessionState {
    /// Attempts are still owed; the driver should capture again.
    Capturing,
    /// The loop ran out of attempts or was cancelled; the frames gathered
    /// so far are the result.
    Completed,
    /// A capture failed under the strict policy; the session is aborted.
    Failed,
}

/// The ordered sequence of captured frames: append-only while the session
/// runs, immutable once it is returned.
#[derive(Debug)]
pub struct FrameSequence {
    /// The frames, insertion order equal to capture order.
    pub frames: Vec<RawFrame>,
}

impl View for FrameSequence {
    type V = Seq<RawFrame>;

    open spec fn view(&self) -> Seq<RawFrame> {
        self.frames@
    }
}

/// Every frame of the sequence is well formed.
pub open spec fn seq_wf(s: Seq<RawFrame>) -> bool {
    forall|i: int| 0 <= i < s.len() ==> frame_wf(s[i])
}

impl FrameSequence {
    /// The empty sequence.
    pub fn new() -> (r: FrameSequence)
        ensures
            r@ =~= Seq::<RawFrame>::empty(),
    {
        FrameSequence { frames: Vec::new() }
    }

    /// Appends one frame at the end, preserving all earlier frames.
    pub fn push(&mut self, f: RawFrame)
        ensures
            final(self)@ == old(self)@.push(f),
    {
        self.frames.push(f);
    }

    /// How many frames have been captured.
    pub fn len(&self) -> (r: usize)
        ensures
            r == self@.len(),
    {
        self.frames.len()
    }

    /// The frame at position `i`, in capture order.
    pub fn get(&self, i: usize) -> (r: &RawFrame)
        requires
            i < self@.len(),
        ensures
            *r == self@[i as int],
    {
        &self.frames[i]
    }
}

/// The frames among the first `n` outcomes, in capture order.
pub open spec fn frames_of(outcomes: Seq<CaptureOutcome>, n: int) -> Seq<RawFrame>
    decreases n,
{
    if n <= 0 {
        Seq::empty()
    } else {
        match outcomes[n - 1] {
            CaptureOutcome::Captured(f) => frames_of(outcomes, n - 1).push(f),
            CaptureOutcome::Failed => frames_of(outcomes, n - 1),
        }
    }
}

/// How many of the first `n` outcomes are failures.
pub open spec fn drops_of(outcomes: Seq<CaptureOutcome>, n: int) -> int
    decreases n,
{
    if n <= 0 {
        0
    } else {
        drops_of(outcomes, n - 1) + (if outcomes[n - 1] is Failed {
            1int
        } else {
            0int
        })
    }
}

/// Law: over any prefix, frames kept and failures counted partition the
/// attempts — the sequence's length is the attempt count minus the drops.
pub proof fn lemma_frames_drops_partition(outcomes: Seq<CaptureOutcome>, n: int)
    requires
        0 <= n,
    ensures
        0 <= drops_of(outcomes, n) <= n,
        frames_of(outcomes, n).len() == n - drops_of(outcomes, n),
    decreases n,
{
    if n > 0 {
        lemma_frames_drops_partition(outcomes, n - 1);
    }
}

/// Counting failures over a longer prefix never counts fewer.
pub proof fn lemma_drops_monotonic(outcomes: Seq<CaptureOutcome>, a: int, b: int)
    requires
        0 <= a <= b,
    ensures
        drops_of(outcomes, a) <= drops_of(outcomes, b),
    decreases b - a,
{
    if a < b {
        lemma_drops_monotonic(outcomes, a, b - 1);
    }
}

/// Ephemeral state of one capture request: the resolved target, the
/// request's parameters, and what the loop has gathered so far. Created
/// when a request starts, consumed when it returns; it holds no state
/// across requests, and the target is never re-resolved while it lives.
#[derive(Debug)]
pub struct CaptureSession {
    /// The one output this session captures from.
    pub target: CaptureTarget,
    /// How many capture attempts the session performs in all.
    pub frame_count: usize,
    /// Requested rate in frames per second; always positive.
    pub frame_rate: u64,
    /// What a capture failure does to the session.
    pub policy: FailurePolicy,
    /// Capture attempts recorded so far.
    pub attempts: usize,
    /// The frames captured so far, in capture order.
    pub frames: FrameSequence,
    /// Failures tolerated so far under the best-effort policy.
    pub dropped: usize,
    /// Where the session stands.
    pub state: SessionState,
}

/// The session invariant: constructors establish it, every step preserves
/// it. While capturing, attempts are still owed; outside the failed state
/// the frames kept and the failures counted account for every attempt; the
/// strict policy never tolerates a failure.
pub open spec fn session_wf(s: CaptureSession) -> bool {
    &&& s.frame_rate > 0
    &&& s.attempts <= s.frame_count
    &&& seq_wf(s.frames@)
    &&& (s.state is Capturing ==> s.attempts < s.frame_count)
    &&& (!(s.state is Failed) ==> s.frames@.len() + s.dropped == s.attempts)
    &&& (s.policy is Strict ==> s.dropped == 0)
    &&& (s.state is Failed ==> s.policy is Strict)
}

impl CaptureSession {
    /// Opens a session: validates the rate before anything else, then
    /// stands ready to capture — or already completed when no frames are
    /// requested, a valid no-op.
    pub fn new(
        target: CaptureTarget,
        frame_count: usize,
        frame_rate: u64,
        policy: FailurePolicy,
    ) -> (r: Result<CaptureSession, CaptureError>)
        ensures
            frame_rate == 0 ==> r == Err::<CaptureSession, CaptureError>(
                CaptureError::InvalidFrameRate,
            ),
            frame_rate > 0 ==> {
                &&& r is Ok
                &&& session_wf(r->Ok_0)
                &&& same_target(r->Ok_0.target, target)
                &&& r->Ok_0.frame_count == frame_count
                &&& r->Ok_0.frame_rate == frame_rate
                &&& r->Ok_0.policy == policy
                &&& r->Ok_0.attempts == 0
                &&& r->Ok_0.frames@ =~= Seq::<RawFrame>::empty()
                &&& r->Ok_0.dropped == 0
                &&& r->Ok_0.state == (if frame_count == 0 {
                    SessionState::Completed
                } else {
                    SessionState::Capturing
                })
            },
    {
        if frame_rate == 0 {
            return Err(CaptureError::InvalidFrameRate);
        }
        let state = if frame_count == 0 {
            SessionState::Completed
        } else {
            SessionState::Capturing
        };
        Ok(
            CaptureSession {
                target,
                frame_count,
                frame_rate,
                policy,
                attempts: 0,
                frames: FrameSequence::new(),
                dropped: 0,
                state,
            },
        )
    }

    /// Whether the driver owes the session another capture attempt.
    pub fn is_capturing(&self) -> (r: bool)
        ensures
            r == (self.state is Capturing),
    {
        match self.state {
            SessionState::Capturing => true,
            _ => false,
        }
    }

    /// The scheduled wait between two ticks, in milliseconds: one second
    /// divided by the rate, truncating — an accepted approximation at
    /// rates that do not divide the second evenly.
    pub fn delay_ms(&self) -> (r: u64)
        requires
            self.frame_rate > 0,
        ensures
            r == MILLIS_PER_SECOND / self.frame_rate,
    {
        MILLIS_PER_SECOND / self.frame_rate
    }

    /// Records one capture attempt. A frame is appended in order; a
    /// failure aborts a strict session, discarding the frames gathered,
    /// and is merely counted in a best-effort one. When the last owed
    /// attempt is recorded without aborting, the session completes.
    pub fn record(&mut self, outcome: CaptureOutcome)
        requires
            session_wf(*old(self)),
            old(self).state is Capturing,
            outcome is Captured ==> frame_wf(outcome->Captured_0),
        ensures
            session_wf(*final(self)),
            final(self).target == old(self).target,
            final(self).frame_count == old(self).frame_count,
            final(self).frame_rate == old(self).frame_rate,
            final(self).policy == old(self).policy,
            final(self).attempts == old(self).attempts + 1,
            match outcome {
                CaptureOutcome::Captured(f) => {
                    &&& final(self).frames@ == old(self).frames@.push(f)
                    &&& final(self).dropped == old(self).dropped
                    &&& final(self).state == (if old(self).attempts + 1
                        == old(self).frame_count {
                        SessionState::Completed
                    } else {
                        SessionState::Capturing
                    })
                },
                CaptureOutcome::Failed => match old(self).policy {
                    FailurePolicy::Strict => {
                        &&& final(self).state is Failed
                        &&& final(self).frames@ =~= Seq::<RawFrame>::empty()
                        &&& final(self).dropped == 0
                    },
                    FailurePolicy::BestEffort => {
                        &&& final(self).frames@ == old(self).frames@
                        &&& final(self).dropped == old(self).dropped + 1
                        &&& final(self).state == (if old(self).attempts + 1
                            == old(self).frame_count {
                            SessionState::Completed
                        } else {
                            SessionState::Capturing
                        })
                    },
                },
            },
    {
        self.attempts = self.attempts + 1;
        match outcome {
            CaptureOutcome::Captured(f) => {
                self.frames.push(f);
                if self.attempts == self.frame_count {
                    self.state = SessionState::Completed;
                }
            },
            CaptureOutcome::Failed => {
                match self.policy {
                    FailurePolicy::Strict => {
                        self.frames = FrameSequence::new();
                        self.state = SessionState::Failed;
                    },
                    FailurePolicy::BestEffort => {
                        self.dropped = self.dropped + 1;
                        if self.attempts == self.frame_count {
                            self.state = SessionState::Completed;
                        }
                    },
                }
            },
        }
    }

    /// Cancels a running session: the frames gathered so far become a
    /// successful partial result, never a distinct cancellation error.
    pub fn cancel(&mut self)
        requires
            session_wf(*old(self)),
            old(self).state is Capturing,
        ensures
            session_wf(*final(self)),
            *final(self) == (CaptureSession { state: SessionState::Completed, ..*old(self) }),
    {
        self.state = SessionState::Completed;
    }

    /// Consumes a finished session: a completed one yields its frames and
    /// its drop count, an aborted one yields the capture error.
    pub fn finish(self) -> (r: Result<SampleOutput, CaptureError>)
        requires
            session_wf(self),
            !(self.state is Capturing),
        ensures
            self.state is Failed ==> r == Err::<SampleOutput, CaptureError>(
                CaptureError::CaptureFailed,
            ),
            self.state is Completed ==> {
                &&& r is Ok
                &&& r->Ok_0.frames@ == self.frames@
                &&& r->Ok_0.dropped == self.dropped
            },
    {
        match self.state {
            SessionState::Failed => Err(CaptureError::CaptureFailed),
            _ => Ok(SampleOutput { frames: self.frames, dropped: self.dropped }),
        }
    }
}

/// A finished session's result: the ordered frames and how many capture
/// failures the best-effort policy tolerated (always zero under strict).
#[derive(Debug)]
pub struct SampleOutput {
    /// The frames, in capture order.
    pub frames: FrameSequence,
    /// How many capture attempts failed and were dropped.
    pub dropped: usize,
}

/// Attempts a session actually performs: the requested count, cut short
/// at the cancellation point when one is requested earlier. Cancellation
/// is observed at the top of a tick, so requesting it at or beyond the
/// requested count changes nothing.
pub open spec fn planned_attempts(frame_count: int, cancel_at: Option<usize>) -> int {
    match cancel_at {
        Some(c) => if c < frame_count {
            c as int
        } else {
            frame_count
        },
        None => frame_count,
    }
}

/// What `sample` returns. A zero rate is rejected before anything else.
/// Otherwise, over the attempts actually performed: a strict session
/// aborts with `CaptureFailed` exactly when any of them fails, and
/// otherwise returns every frame in capture order; a best-effort session
/// always succeeds, returning the frames of the successful attempts in
/// capture order and the count of the failed ones.
pub open spec fn sample_post(
    frame_count: int,
    frame_rate: u64,
    policy: FailurePolicy,
    outcomes: Seq<CaptureOutcome>,
    cancel_at: Option<usize>,
    r: Result<SampleOutput, CaptureError>,
) -> bool {
    &&& (frame_rate == 0 ==> r == Err::<SampleOutput, CaptureError>(
        CaptureError::InvalidFrameRate,
    ))
    &&& (frame_rate > 0 ==> {
        let m = planned_attempts(frame_count, cancel_at);
        match policy {
            FailurePolicy::Strict => {
                &&& (drops_of(outcomes, m) > 0 ==> r == Err::<SampleOutput, CaptureError>(
                    CaptureError::CaptureFailed,
                ))
                &&& (drops_of(outcomes, m) == 0 ==> {
                    &&& r is Ok
                    &&& r->Ok_0.frames@ == frames_of(outcomes, m)
                    &&& r->Ok_0.dropped == 0
                })
            },
            FailurePolicy::BestEffort => {
                &&& r is Ok
                &&& r->Ok_0.frames@ == frames_of(outcomes, m)
                &&& r->Ok_0.dropped == drops_of(outcomes, m)
            },
        }
    })
}

/// Runs one whole capture session over the given stream of capture
/// outcomes, one outcome per attempt in order, applying the failure
/// policy and observing the cancellation request at the top of each tick.
pub fn sample(
    target: CaptureTarget,
    frame_count: usize,
    frame_rate: u64,
    policy: FailurePolicy,
    outcomes: Vec<CaptureOutcome>,
    cancel_at: Option<usize>,
) -> (r: Result<SampleOutput, CaptureError>)
    requires
        outcomes@.len() == frame_count,
        seq_outcomes_wf(outcomes@),
    ensures
        sample_post(frame_count as int, frame_rate, policy, outcomes@, cancel_at, r),
{
    let ghost all = outcomes@;
    let mut outcomes = outcomes;
    let mut session = match CaptureSession::new(target, frame_count, frame_rate, policy) {
        Ok(s) => s,
        Err(e) => {
            return Err(e);
        },
    };
    let limit: usize = match cancel_at {
        Some(c) => if c < frame_count {
            c
        } else {
            frame_count
        },
        None => frame_count,
    };
    assert(limit == planned_attempts(frame_count as int, cancel_at));
    let mut i: usize = 0;
    while i < limit && session.is_capturing()
        invariant
            session_wf(session),
            session.frame_count == frame_count,
            session.frame_rate == frame_rate,
            session.policy == policy,
            i == session.attempts,
            i <= limit <= frame_count,
            all.len() == frame_count,
            seq_outcomes_wf(all),
            outcomes@ == all.subrange(i as int, frame_count as int),
            session.state is Completed ==> i == frame_count,
            session.state is Failed ==> drops_of(all, i as int) > 0,
            !(session.state is Failed) ==> session.frames@ == frames_of(all, i as int)
                && session.dropped == drops_of(all, i as int),
        decreases limit - i,
    {
        let outcome = outcomes.remove(0);
        proof {
            assert(outcome == all[i as int]);
            assert(outcomes@ =~= all.subrange(i as int + 1, frame_count as int));
            lemma_frames_drops_partition(all, i as int);
        }
        session.record(outcome);
        i = i + 1;
    }
    if session.is_capturing() {
        session.cancel();
    }
    proof {
        if session.state is Failed {
            lemma_drops_monotonic(all, i as int, limit as int);
        }
    }
    session.finish()
}

/// Every frame among the outcomes is well formed.
pub open spec fn seq_outcomes_wf(s: Seq<CaptureOutcome>) -> bool {
    forall|i: int| 0 <= i < s.len() && s[i] is Captured ==> frame_wf(s[i]->Captured_0)
}

/// Law: when every one of the first `n` attempts succeeds, the sequence
/// holds exactly `n` frames and the frame at each position is the one that
/// attempt captured — capture order, no reordering.
pub proof fn lemma_all_captured_in_order(outcomes: Seq<CaptureOutcome>, n: int)
    requires
        0 <= n,
        forall|j: int| 0 <= j < n ==> outcomes[j] is Captured,
    ensures
        frames_of(outcomes, n).len() == n,
        forall|j: int| 0 <= j < n ==> frames_of(outcomes, n)[j] == outcomes[j]->Captured_0,
    decreases n,
{
    if n > 0 {
        lemma_all_captured_in_order(outcomes, n - 1);
    }
}

} // verus!
