//! The capture session: its lifecycle, the decisions of the frame-arrived
//! callback, and the ordered, best-effort teardown.

use crate::error::{CaptureError, StopError};
use crate::frame_relay::{Frame, FrameSlot};
use crate::setup::{pool_request, make_pool_request, CaptureSource, Dimensions, PoolRequest, Setup, SetupPhase};
use std::time::Instant;
use vstd::prelude::*;

verus! {

/// The three states of a session. `Stopped` is terminal.
#[derive(Clone, Copy, Debug, PartialEq, Eq, Structural)]
pub enum SessionState {
    Created,
    Started,
    Stopped,
}

/// The steps of teardown, in the order in which they are attempted.
#[derive(Clone, Copy, Debug, PartialEq, Eq, Structural)]
pub enum TeardownStep {
    Unsubscribe,
    ClosePool,
    CloseSession,
}

/// A session's position in its life, teardown progress included.
#[derive(Clone, Copy, Debug, PartialEq, Eq, Structural)]
pub enum SessionPhase {
    /// Built and subscribed; capture is not flowing yet.
    Created,
    /// Capture is flowing.
    Started,
    /// Stop was requested; the given teardown step is to be attempted next.
    Stopping(TeardownStep),
    /// All three teardown steps were attempted.
    Closed,
}

/// What the frame-arrived callback is to do with one event.
#[derive(Debug)]
pub enum FrameDecision {
    /// No surface could be acquired: publish nothing.
    Skip(CaptureError),
    /// First recreate the pool if a request is given, then publish `frame`.
    Deliver { recreate: Option<PoolRequest>, frame: Frame },
}

/// One frame-arrived event: when it came and what the pool handed out,
/// either the content size of the acquired surface or a status code.
pub struct FrameEvent {
    pub now: Instant,
    pub surface: Result<Dimensions, i32>,
}

/// The mathematical state of a session.
pub struct SessionView {
    pub source: CaptureSource,
    pub phase: SessionPhase,
    /// The last known content size.
    pub size: Dimensions,
    /// The sequence number that the next callback will hand out.
    pub frame_count: u32,
    /// The frame waiting for the consumer, if any.
    pub slot: Option<Frame>,
    /// The teardown steps that failed so far.
    pub failures: StopError,
}

/// The state named by a phase.
pub open spec fn phase_state(phase: SessionPhase) -> SessionState {
    match phase {
        SessionPhase::Created => SessionState::Created,
        SessionPhase::Started => SessionState::Started,
        SessionPhase::Stopping(_) => SessionState::Stopped,
        SessionPhase::Closed => SessionState::Stopped,
    }
}

/// Whether the frame-arrived subscription is still registered.
pub open spec fn subscribed(phase: SessionPhase) -> bool {
    phase == SessionPhase::Created || phase == SessionPhase::Started || phase
        == SessionPhase::Stopping(TeardownStep::Unsubscribe)
}

/// Whether the frame pool has not been closed yet.
pub open spec fn pool_open(phase: SessionPhase) -> bool {
    subscribed(phase) || phase == SessionPhase::Stopping(TeardownStep::ClosePool)
}

/// Whether the session object has not been closed yet.
pub open spec fn session_open(phase: SessionPhase) -> bool {
    phase != SessionPhase::Closed
}

/// No teardown step has failed.
pub open spec fn no_failures() -> StopError {
    StopError { unsubscribe: None, close_pool: None, close_session: None }
}

/// The session that a completed construction yields.
pub open spec fn session_created(source: CaptureSource, size: Dimensions) -> SessionView {
    SessionView {
        source: source,
        phase: SessionPhase::Created,
        size: size,
        frame_count: 0,
        slot: None,
        failures: no_failures(),
    }
}

/// The successor of a sequence number: one more, wrapping at the top of
/// the 32-bit range.
pub open spec fn next_count(count: u32) -> u32 {
    if count == u32::MAX {
        0
    } else {
        (count + 1) as u32
    }
}

/// The callback's decision on one event, and the state it leaves.
///
/// Every call consumes a sequence number, whether or not a frame comes of
/// it. A failed acquisition publishes nothing and changes nothing else. An
/// acquired surface yields a frame with the consumed number; if its size
/// differs from the remembered one, the new size is remembered and one pool
/// recreation is asked for.
pub open spec fn frame_step(s: SessionView, event: FrameEvent) -> (SessionView, FrameDecision) {
    let counted = SessionView { frame_count: next_count(s.frame_count), ..s };
    match event.surface {
        Err(code) => (counted, FrameDecision::Skip(CaptureError::FrameAcquisitionFailed(code))),
        Ok(size) => (
            SessionView { size: size, ..counted },
            FrameDecision::Deliver {
                recreate: if size != s.size {
                    Some(pool_request(size))
                } else {
                    None
                },
                frame: Frame { ts: event.now, id: s.frame_count },
            },
        ),
    }
}

/// The state after a start request: a created session starts, any other
/// stays as it is.
pub open spec fn start_step(s: SessionView) -> SessionView {
    if s.phase == SessionPhase::Created {
        SessionView { phase: SessionPhase::Started, ..s }
    } else {
        s
    }
}

/// The state after a stop request: a live session begins teardown with
/// unsubscribing, any other stays as it is.
pub open spec fn stop_step(s: SessionView) -> SessionView {
    if s.phase == SessionPhase::Created || s.phase == SessionPhase::Started {
        SessionView { phase: SessionPhase::Stopping(TeardownStep::Unsubscribe), ..s }
    } else {
        s
    }
}

/// The teardown step a phase is waiting for.
pub open spec fn pending_teardown(phase: SessionPhase) -> Option<TeardownStep> {
    match phase {
        SessionPhase::Stopping(step) => Some(step),
        _ => None,
    }
}

/// The phase that follows the attempt of a teardown step, whatever its
/// outcome was.
pub open spec fn phase_after_teardown(step: TeardownStep) -> SessionPhase {
    match step {
        TeardownStep::Unsubscribe => SessionPhase::Stopping(TeardownStep::ClosePool),
        TeardownStep::ClosePool => SessionPhase::Stopping(TeardownStep::CloseSession),
        TeardownStep::CloseSession => SessionPhase::Closed,
    }
}

/// `failures` with the outcome of `step` recorded.
pub open spec fn record_outcome(failures: StopError, step: TeardownStep, outcome: Result<(), i32>)
    -> StopError {
    let code = match outcome {
        Ok(_) => None,
        Err(code) => Some(code),
    };
    match step {
        TeardownStep::Unsubscribe => StopError { unsubscribe: code, ..failures },
        TeardownStep::ClosePool => StopError { close_pool: code, ..failures },
        TeardownStep::CloseSession => StopError { close_session: code, ..failures },
    }
}

/// The state after the pending teardown step was attempted with the given
/// outcome. A failure is recorded and the next step still becomes pending.
/// With no teardown step pending, nothing changes.
pub open spec fn teardown_step(s: SessionView, outcome: Result<(), i32>) -> SessionView {
    match s.phase {
        SessionPhase::Stopping(step) => SessionView {
            phase: phase_after_teardown(step),
            failures: record_outcome(s.failures, step, outcome),
            ..s
        },
        _ => s,
    }
}

/// The verdict on a finished teardown: success if no step failed, else the
/// failures. `None` while teardown has not finished.
pub open spec fn stop_verdict(s: SessionView) -> Option<Result<(), StopError>> {
    if s.phase == SessionPhase::Closed {
        Some(
            if s.failures == no_failures() {
                Ok(())
            } else {
                Err(s.failures)
            },
        )
    } else {
        None
    }
}

/// Reads the clock through `std::time::Instant::now`. Nothing is claimed of
/// the value: it depends on when the call is made.
#[verifier::external_body]
fn clock_now() -> (now: Instant) {
    Instant::now()
}

/// A capture session bound to one source.
pub struct Capturer {
    source: CaptureSource,
    phase: SessionPhase,
    size: Dimensions,
    frame_count: u32,
    frame: FrameSlot,
    failures: StopError,
}

impl View for Capturer {
    type V = SessionView;

    closed spec fn view(&self) -> SessionView {
        SessionView {
            source: self.source,
            phase: self.phase,
            size: self.size,
            frame_count: self.frame_count,
            slot: self.frame@,
            failures: self.failures,
        }
    }
}

impl Capturer {
    /// Turns a finished construction into a session in state `Created`.
    ///
    /// Succeeds exactly when every construction step succeeded. A failed
    /// construction gives the error of the step that failed; one that was
    /// abandoned midway gives `SetupIncomplete`.
    pub fn new(setup: Setup) -> (made: Result<Capturer, CaptureError>)
        ensures
            match setup@.phase {
                SetupPhase::Ready => made is Ok && made->Ok_0@ == session_created(
                    setup@.source,
                    setup@.size,
                ),
                SetupPhase::Failed(error) => made is Err && made->Err_0 == error,
                SetupPhase::Pending(_) => made is Err && made->Err_0
                    == CaptureError::SetupIncomplete,
            },
    {
        match setup.phase() {
            SetupPhase::Ready => Ok(
                Capturer {
                    source: setup.source(),
                    phase: SessionPhase::Created,
                    size: setup.size(),
                    frame_count: 0,
                    frame: FrameSlot::new(),
                    failures: StopError { unsubscribe: None, close_pool: None, close_session: None },
                },
            ),
            SetupPhase::Failed(error) => Err(error),
            SetupPhase::Pending(_) => Err(CaptureError::SetupIncomplete),
        }
    }

    /// The session's state.
    pub fn state(&self) -> (state: SessionState)
        ensures
            state == phase_state(self@.phase),
    {
        match self.phase {
            SessionPhase::Created => SessionState::Created,
            SessionPhase::Started => SessionState::Started,
            SessionPhase::Stopping(_) => SessionState::Stopped,
            SessionPhase::Closed => SessionState::Stopped,
        }
    }

    /// The session's phase, teardown progress included.
    pub fn phase(&self) -> (phase: SessionPhase)
        ensures
            phase == self@.phase,
    {
        self.phase
    }

    /// The source the session is bound to.
    pub fn source(&self) -> (source: CaptureSource)
        ensures
            source == self@.source,
    {
        self.source
    }

    /// The last known content size.
    pub fn size(&self) -> (size: Dimensions)
        ensures
            size == self@.size,
    {
        self.size
    }

    /// The number of callbacks counted so far, modulo 2^32: the sequence
    /// number that the next one will hand out.
    pub fn frame_count(&self) -> (count: u32)
        ensures
            count == self@.frame_count,
    {
        self.frame_count
    }

    /// Requests the start of capture. Returns whether the caller is to start
    /// the platform session: true exactly for a session in state `Created`.
    pub fn start(&mut self) -> (go: bool)
        ensures
            go == (old(self)@.phase == SessionPhase::Created),
            final(self)@ == start_step(old(self)@),
    {
        match self.phase {
            SessionPhase::Created => {
                self.phase = SessionPhase::Started;
                true
            },
            _ => false,
        }
    }

    /// Decides what the callback does with an event that arrived at `now`.
    pub fn on_frame_arrived_at(&mut self, now: Instant, surface: Result<Dimensions, i32>) -> (decision:
        FrameDecision)
        ensures
            (final(self)@, decision) == frame_step(
                old(self)@,
                FrameEvent { now: now, surface: surface },
            ),
    {
        let id = self.frame_count;
        self.frame_count = id.wrapping_add(1);
        match surface {
            Err(code) => FrameDecision::Skip(CaptureError::FrameAcquisitionFailed(code)),
            Ok(size) => {
                let recreate = if size != self.size {
                    Some(make_pool_request(size))
                } else {
                    None
                };
                self.size = size;
                FrameDecision::Deliver { recreate: recreate, frame: Frame::new(now, id) }
            },
        }
    }

    /// Decides what the callback does with an event that arrives at this
    /// moment: the decision of `on_frame_arrived_at` for some timestamp.
    pub fn on_frame_arrived(&mut self, surface: Result<Dimensions, i32>) -> (decision: FrameDecision)
        ensures
            exists|now: Instant|
                (final(self)@, decision) == #[trigger] frame_step(
                    old(self)@,
                    FrameEvent { now: now, surface: surface },
                ),
    {
        let now = clock_now();
        let decision = self.on_frame_arrived_at(now, surface);
        proof {
            let event = FrameEvent { now: now, surface: surface };
            assert((self@, decision) == frame_step(old(self)@, event));
        }
        decision
    }

    /// Puts `frame` into the slot, replacing a frame that was not taken.
    pub fn publish(&mut self, frame: Frame)
        ensures
            final(self)@ == (SessionView { slot: Some(frame), ..old(self)@ }),
    {
        self.frame.publish(frame);
    }

    /// Takes the waiting frame, if any, and leaves the slot empty.
    pub fn try_take(&mut self) -> (taken: Option<Frame>)
        ensures
            taken == old(self)@.slot,
            final(self)@ == (SessionView { slot: None, ..old(self)@ }),
    {
        self.frame.try_take()
    }

    /// Requests teardown. Returns the teardown step to attempt next, if one
    /// is pending afterwards: `Unsubscribe` for a session that was live.
    pub fn stop(&mut self) -> (step: Option<TeardownStep>)
        ensures
            final(self)@ == stop_step(old(self)@),
            step == pending_teardown(final(self)@.phase),
    {
        match self.phase {
            SessionPhase::Created | SessionPhase::Started => {
                self.phase = SessionPhase::Stopping(TeardownStep::Unsubscribe);
                Some(TeardownStep::Unsubscribe)
            },
            SessionPhase::Stopping(step) => Some(step),
            SessionPhase::Closed => None,
        }
    }

    /// Records the outcome of the pending teardown step and returns the
    /// step to attempt next. The next step is due whether or not this one
    /// succeeded.
    pub fn teardown_attempted(&mut self, outcome: Result<(), i32>) -> (step: Option<TeardownStep>)
        ensures
            final(self)@ == teardown_step(old(self)@, outcome),
            step == pending_teardown(final(self)@.phase),
    {
        let code = match outcome {
            Ok(_) => None,
            Err(code) => Some(code),
        };
        match self.phase {
            SessionPhase::Stopping(TeardownStep::Unsubscribe) => {
                self.failures.unsubscribe = code;
                self.phase = SessionPhase::Stopping(TeardownStep::ClosePool);
                Some(TeardownStep::ClosePool)
            },
            SessionPhase::Stopping(TeardownStep::ClosePool) => {
                self.failures.close_pool = code;
                self.phase = SessionPhase::Stopping(TeardownStep::CloseSession);
                Some(TeardownStep::CloseSession)
            },
            SessionPhase::Stopping(TeardownStep::CloseSession) => {
                self.failures.close_session = code;
                self.phase = SessionPhase::Closed;
                None
            },
            _ => None,
        }
    }

    /// The result of a finished teardown, `None` while it has not finished.
    pub fn stop_result(&self) -> (verdict: Option<Result<(), StopError>>)
        ensures
            verdict == stop_verdict(self@),
    {
        match self.phase {
            SessionPhase::Closed => {
                if self.failures.unsubscribe.is_none() && self.failures.close_pool.is_none()
                    && self.failures.close_session.is_none() {
                    Some(Ok(()))
                } else {
                    Some(Err(self.failures))
                }
            },
            _ => None,
        }
    }
}

/// The state after the callback has handled every event of `events`, in
/// order.
pub open spec fn frame_run(s: SessionView, events: Seq<FrameEvent>) -> SessionView
    decreases events.len(),
{
    if events.len() == 0 {
        s
    } else {
        frame_step(frame_run(s, events.drop_last()), events.last()).0
    }
}

/// The callback's decision on event `k` of `events`, the earlier events
/// having been handled from state `s`.
pub open spec fn decision_at(s: SessionView, events: Seq<FrameEvent>, k: int) -> FrameDecision {
    frame_step(frame_run(s, events.take(k)), events[k]).1
}

/// As long as the counter does not wrap, `k` handled events advance it by
/// exactly `k`.
pub proof fn lemma_count_after(s: SessionView, events: Seq<FrameEvent>, k: int)
    requires
        0 <= k <= events.len(),
        s.frame_count + k <= u32::MAX,
    ensures
        frame_run(s, events.take(k)).frame_count == s.frame_count + k,
    decreases k,
{
    if k > 0 {
        lemma_count_after(s, events, k - 1);
        assert(events.take(k).drop_last() =~= events.take(k - 1));
    }
}

/// Sequence numbers are strictly increasing: of two frames that the
/// callback delivers, the later one carries the larger number, failed
/// acquisitions in between or not. This holds until the 32-bit counter
/// wraps, hence the bound on the later event's position.
pub proof fn lemma_sequence_numbers_increase(
    s: SessionView,
    events: Seq<FrameEvent>,
    i: int,
    j: int,
)
    requires
        0 <= i < j < events.len(),
        s.frame_count + j <= u32::MAX,
        decision_at(s, events, i) is Deliver,
        decision_at(s, events, j) is Deliver,
    ensures
        decision_at(s, events, i)->frame.id < decision_at(s, events, j)->frame.id,
        decision_at(s, events, i)->frame.id == s.frame_count + i,
        decision_at(s, events, j)->frame.id == s.frame_count + j,
{
    lemma_count_after(s, events, i);
    lemma_count_after(s, events, j);
}

/// Whether an event leaves the remembered size at `size`: its acquisition
/// failed, or its surface has that size.
pub open spec fn keeps_size(event: FrameEvent, size: Dimensions) -> bool {
    event.surface matches Ok(reported) ==> reported == size
}

/// While no event reports another size, the remembered size stays and no
/// recreation is asked for.
pub proof fn lemma_steady_size(s: SessionView, events: Seq<FrameEvent>, k: int)
    requires
        0 <= k <= events.len(),
        forall|i: int| 0 <= i < events.len() ==> keeps_size(#[trigger] events[i], s.size),
    ensures
        frame_run(s, events.take(k)).size == s.size,
        k < events.len() ==> (decision_at(s, events, k) matches FrameDecision::Deliver {
            recreate,
            ..
        } ==> recreate is None),
    decreases k,
{
    if k > 0 {
        lemma_steady_size(s, events, k - 1);
        assert(events.take(k).drop_last() =~= events.take(k - 1));
        assert(keeps_size(events[k - 1], s.size));
    }
    if k < events.len() {
        assert(keeps_size(events[k], s.size));
    }
}

/// A size change is answered once. The event that reports a new size makes
/// it the remembered size and asks for one pool recreation with that size,
/// the fixed format and the fixed capacity, to be made before its frame is
/// published. The events after it, as long as they report no other size,
/// ask for none.
pub proof fn lemma_resize_recreates_once(
    s: SessionView,
    first: FrameEvent,
    rest: Seq<FrameEvent>,
    k: int,
)
    requires
        first.surface is Ok,
        first.surface->Ok_0 != s.size,
        0 <= k < rest.len(),
        forall|i: int| 0 <= i < rest.len() ==> keeps_size(#[trigger] rest[i], first.surface->Ok_0),
    ensures
        frame_step(s, first).0.size == first.surface->Ok_0,
        frame_step(s, first).1 == (FrameDecision::Deliver {
            recreate: Some(pool_request(first.surface->Ok_0)),
            frame: Frame { ts: first.now, id: s.frame_count },
        }),
        frame_run(frame_step(s, first).0, rest.take(k)).size == first.surface->Ok_0,
        decision_at(frame_step(s, first).0, rest, k) matches FrameDecision::Deliver {
            recreate,
            ..
        } ==> recreate is None,
{
    lemma_steady_size(frame_step(s, first).0, rest, k);
}

/// Anything that can happen to a session, from either thread.
pub enum SessionEvent {
    /// A start request.
    Start,
    /// The callback handles a frame-arrived event.
    FrameArrived(FrameEvent),
    /// The callback publishes a frame.
    Publish(Frame),
    /// The consumer polls the slot.
    Take,
    /// A stop request.
    Stop,
    /// The pending teardown step was attempted, with this outcome.
    TeardownAttempted(Result<(), i32>),
}

/// The state after one event.
pub open spec fn session_step(s: SessionView, event: SessionEvent) -> SessionView {
    match event {
        SessionEvent::Start => start_step(s),
        SessionEvent::FrameArrived(e) => frame_step(s, e).0,
        SessionEvent::Publish(frame) => SessionView { slot: Some(frame), ..s },
        SessionEvent::Take => SessionView { slot: None, ..s },
        SessionEvent::Stop => stop_step(s),
        SessionEvent::TeardownAttempted(outcome) => teardown_step(s, outcome),
    }
}

/// The state after a sequence of events.
pub open spec fn session_run(s: SessionView, events: Seq<SessionEvent>) -> SessionView
    decreases events.len(),
{
    if events.len() == 0 {
        s
    } else {
        session_step(session_run(s, events.drop_last()), events.last())
    }
}

/// The teardown steps attempted in the course of a sequence of events, in
/// the order of their attempts.
pub open spec fn teardown_trace(s: SessionView, events: Seq<SessionEvent>) -> Seq<TeardownStep>
    decreases events.len(),
{
    if events.len() == 0 {
        Seq::empty()
    } else {
        let before = session_run(s, events.drop_last());
        let earlier = teardown_trace(s, events.drop_last());
        match (events.last(), before.phase) {
            (SessionEvent::TeardownAttempted(_), SessionPhase::Stopping(step)) => earlier.push(step),
            _ => earlier,
        }
    }
}

/// The number of teardown attempts reported in a sequence of events.
pub open spec fn teardown_attempts(events: Seq<SessionEvent>) -> nat
    decreases events.len(),
{
    if events.len() == 0 {
        0
    } else {
        teardown_attempts(events.drop_last()) + if events.last() is TeardownAttempted {
            1nat
        } else {
            0nat
        }
    }
}

/// The fixed order of teardown.
pub open spec fn teardown_order() -> Seq<TeardownStep> {
    seq![TeardownStep::Unsubscribe, TeardownStep::ClosePool, TeardownStep::CloseSession]
}

/// The number of teardown steps that were attempted when a session is in
/// the given phase.
pub open spec fn teardown_progress(phase: SessionPhase) -> nat {
    match phase {
        SessionPhase::Created => 0,
        SessionPhase::Started => 0,
        SessionPhase::Stopping(TeardownStep::Unsubscribe) => 0,
        SessionPhase::Stopping(TeardownStep::ClosePool) => 1,
        SessionPhase::Stopping(TeardownStep::CloseSession) => 2,
        SessionPhase::Closed => 3,
    }
}

/// The resources go in the reverse order of their acquisition: a closed pool
/// means the subscription is gone, a closed session means the pool is
/// closed.
pub proof fn lemma_unsubscribed_before_close(phase: SessionPhase)
    ensures
        !pool_open(phase) ==> !subscribed(phase),
        !session_open(phase) ==> !pool_open(phase),
        phase_state(phase) != SessionState::Stopped ==> subscribed(phase),
{
}

/// Teardown is attempted in the fixed order, whatever else happens
/// meanwhile. Over any sequence of events, with callbacks still arriving,
/// frames published and taken, repeated start and stop requests, and steps
/// failing, the steps attempted are a run of consecutive steps of the order
/// unsubscribe, close pool, close session: none is skipped, repeated or
/// taken out of turn.
pub proof fn lemma_teardown_in_order(s: SessionView, events: Seq<SessionEvent>)
    ensures
        teardown_progress(s.phase) <= teardown_progress(session_run(s, events).phase) <= 3,
        teardown_trace(s, events) == teardown_order().subrange(
            teardown_progress(s.phase) as int,
            teardown_progress(session_run(s, events).phase) as int,
        ),
    decreases events.len(),
{
    if events.len() > 0 {
        lemma_teardown_in_order(s, events.drop_last());
    }
}

/// Teardown runs to its end even if steps fail. Once stop was requested,
/// every reported attempt moves teardown one step on, whatever its outcome
/// and whatever other events come in between, until all three steps were
/// attempted.
pub proof fn lemma_teardown_completes(s: SessionView, events: Seq<SessionEvent>)
    requires
        phase_state(s.phase) == SessionState::Stopped,
    ensures
        phase_state(session_run(s, events).phase) == SessionState::Stopped,
        teardown_progress(session_run(s, events).phase) == if teardown_progress(s.phase)
            + teardown_attempts(events) <= 3 {
            teardown_progress(s.phase) + teardown_attempts(events)
        } else {
            3
        },
    decreases events.len(),
{
    if events.len() > 0 {
        lemma_teardown_completes(s, events.drop_last());
    }
}

} // verus!
