//! Building a capture session: the fixed sequence of platform steps, each of
//! which is attempted only after the one before it has succeeded.

use crate::error::CaptureError;
use vstd::prelude::*;

verus! {

/// What is captured: a window or a monitor, by its platform handle.
#[derive(Clone, Copy, Debug, PartialEq, Eq, Structural)]
pub enum CaptureSource {
    Window(isize),
    Monitor(isize),
}

/// Content size in pixels, as the platform reports it.
#[derive(Clone, Copy, Debug, PartialEq, Eq, Structural)]
pub struct Dimensions {
    pub width: i32,
    pub height: i32,
}

/// The kind of rendering device to ask for.
#[derive(Clone, Copy, Debug, PartialEq, Eq, Structural)]
pub enum DriverKind {
    /// A hardware adapter. There is no software fallback.
    Hardware,
}

/// The lowest feature level a device may have.
#[derive(Clone, Copy, Debug, PartialEq, Eq, Structural)]
pub enum FeatureLevel {
    Level11_1,
}

/// Pixel layout of the pool's surfaces.
#[derive(Clone, Copy, Debug, PartialEq, Eq, Structural)]
pub enum PixelFormat {
    B8G8R8A8UIntNormalized,
}

/// Number of surfaces in a frame pool.
pub const POOL_CAPACITY: i32 = 2;

/// Parameters of device creation.
#[derive(Clone, Copy, Debug, PartialEq, Eq, Structural)]
pub struct DeviceRequest {
    pub driver: DriverKind,
    pub min_feature_level: FeatureLevel,
    /// Surfaces must be readable as BGRA by the capture subsystem.
    pub bgra_support: bool,
}

/// Parameters of frame pool creation and recreation.
#[derive(Clone, Copy, Debug, PartialEq, Eq, Structural)]
pub struct PoolRequest {
    pub format: PixelFormat,
    pub capacity: i32,
    pub size: Dimensions,
}

/// The one device request this library makes.
pub open spec fn device_request() -> DeviceRequest {
    DeviceRequest {
        driver: DriverKind::Hardware,
        min_feature_level: FeatureLevel::Level11_1,
        bgra_support: true,
    }
}

/// The pool request for content of the given size.
pub open spec fn pool_request(size: Dimensions) -> PoolRequest {
    PoolRequest { format: PixelFormat::B8G8R8A8UIntNormalized, capacity: POOL_CAPACITY, size: size }
}

/// Builds the pool request for content of the given size: always the same
/// format and capacity.
pub fn make_pool_request(size: Dimensions) -> (request: PoolRequest)
    ensures
        request == pool_request(size),
{
    PoolRequest { format: PixelFormat::B8G8R8A8UIntNormalized, capacity: POOL_CAPACITY, size: size }
}

/// The steps of construction, in the order in which they are taken.
#[derive(Clone, Copy, Debug, PartialEq, Eq, Structural)]
pub enum SetupStep {
    CreateDevice,
    AdaptDevice,
    ResolveItem,
    ReadSize,
    AllocatePool,
    CreateSession,
    Subscribe,
}

/// Where construction stands.
#[derive(Clone, Copy, Debug, PartialEq, Eq, Structural)]
pub enum SetupPhase {
    /// The given step is to be performed next.
    Pending(SetupStep),
    /// All steps succeeded.
    Ready,
    /// A step failed; nothing further is attempted.
    Failed(CaptureError),
}

/// What the caller is asked to do on the platform.
#[derive(Clone, Copy, Debug, PartialEq, Eq, Structural)]
pub enum SetupAction {
    CreateDevice(DeviceRequest),
    AdaptDevice,
    ResolveItem(CaptureSource),
    ReadSize,
    AllocatePool(PoolRequest),
    CreateSession,
    Subscribe,
}

/// What the platform answered to the pending step.
#[derive(Clone, Copy, Debug, PartialEq, Eq, Structural)]
pub enum StepReport {
    /// The step succeeded. Fits every step but `ReadSize`.
    Done,
    /// The source's size was read. Fits `ReadSize` only.
    Size(Dimensions),
    /// The step failed with this status code.
    Failed(i32),
}

/// The step that follows `step`, if any.
pub open spec fn step_after(step: SetupStep) -> Option<SetupStep> {
    match step {
        SetupStep::CreateDevice => Some(SetupStep::AdaptDevice),
        SetupStep::AdaptDevice => Some(SetupStep::ResolveItem),
        SetupStep::ResolveItem => Some(SetupStep::ReadSize),
        SetupStep::ReadSize => Some(SetupStep::AllocatePool),
        SetupStep::AllocatePool => Some(SetupStep::CreateSession),
        SetupStep::CreateSession => Some(SetupStep::Subscribe),
        SetupStep::Subscribe => None,
    }
}

/// The error that a failure of `step` with status `code` amounts to.
pub open spec fn step_error(step: SetupStep, code: i32) -> CaptureError {
    match step {
        SetupStep::CreateDevice => CaptureError::DeviceCreationFailed(code),
        SetupStep::AdaptDevice => CaptureError::DeviceCreationFailed(code),
        SetupStep::ResolveItem => CaptureError::SourceResolutionFailed(code),
        SetupStep::ReadSize => CaptureError::SourceResolutionFailed(code),
        SetupStep::AllocatePool => CaptureError::PoolCreationFailed(code),
        SetupStep::CreateSession => CaptureError::SessionCreationFailed(code),
        SetupStep::Subscribe => CaptureError::SubscriptionFailed(code),
    }
}

/// The phase reached once `step` has succeeded.
pub open spec fn phase_after(step: SetupStep) -> SetupPhase {
    match step_after(step) {
        Some(next) => SetupPhase::Pending(next),
        None => SetupPhase::Ready,
    }
}

/// The mathematical state of a construction in progress.
pub struct SetupView {
    pub source: CaptureSource,
    pub phase: SetupPhase,
    /// The size read from the source. Meaningful once `ReadSize` succeeded.
    pub size: Dimensions,
}

/// The state in which construction starts.
pub open spec fn setup_begin(source: CaptureSource) -> SetupView {
    SetupView {
        source: source,
        phase: SetupPhase::Pending(SetupStep::CreateDevice),
        size: Dimensions { width: 0, height: 0 },
    }
}

/// The platform action that state `s` asks for, if it asks for one.
pub open spec fn setup_action(s: SetupView) -> Option<SetupAction> {
    match s.phase {
        SetupPhase::Pending(step) => Some(
            match step {
                SetupStep::CreateDevice => SetupAction::CreateDevice(device_request()),
                SetupStep::AdaptDevice => SetupAction::AdaptDevice,
                SetupStep::ResolveItem => SetupAction::ResolveItem(s.source),
                SetupStep::ReadSize => SetupAction::ReadSize,
                SetupStep::AllocatePool => SetupAction::AllocatePool(pool_request(s.size)),
                SetupStep::CreateSession => SetupAction::CreateSession,
                SetupStep::Subscribe => SetupAction::Subscribe,
            },
        ),
        _ => None,
    }
}

/// The state that follows `s` when the platform reports `report`.
///
/// A failure of the pending step ends construction with that step's error.
/// A success moves on to the next step; reading the size also records it.
/// A report that does not fit the pending step, or that arrives when no step
/// is pending, changes nothing.
pub open spec fn setup_advance(s: SetupView, report: StepReport) -> SetupView {
    match s.phase {
        SetupPhase::Pending(step) => match report {
            StepReport::Failed(code) => SetupView {
                phase: SetupPhase::Failed(step_error(step, code)),
                ..s
            },
            StepReport::Size(size) => if step == SetupStep::ReadSize {
                SetupView { phase: phase_after(step), size: size, ..s }
            } else {
                s
            },
            StepReport::Done => if step != SetupStep::ReadSize {
                SetupView { phase: phase_after(step), ..s }
            } else {
                s
            },
        },
        _ => s,
    }
}

/// A construction in progress.
pub struct Setup {
    source: CaptureSource,
    phase: SetupPhase,
    size: Dimensions,
}

impl View for Setup {
    type V = SetupView;

    closed spec fn view(&self) -> SetupView {
        SetupView { source: self.source, phase: self.phase, size: self.size }
    }
}

impl Setup {
    /// Starts construction for `source`: device creation is pending.
    pub fn begin(source: CaptureSource) -> (setup: Setup)
        ensures
            setup@ == setup_begin(source),
    {
        Setup {
            source: source,
            phase: SetupPhase::Pending(SetupStep::CreateDevice),
            size: Dimensions { width: 0, height: 0 },
        }
    }

    /// Where construction stands.
    pub fn phase(&self) -> (phase: SetupPhase)
        ensures
            phase == self@.phase,
    {
        self.phase
    }

    /// The source being bound.
    pub fn source(&self) -> (source: CaptureSource)
        ensures
            source == self@.source,
    {
        self.source
    }

    /// The size recorded by `ReadSize`.
    pub fn size(&self) -> (size: Dimensions)
        ensures
            size == self@.size,
    {
        self.size
    }

    /// The platform action to perform next, or `None` when construction has
    /// ended.
    pub fn next_action(&self) -> (action: Option<SetupAction>)
        ensures
            action == setup_action(self@),
    {
        match self.phase {
            SetupPhase::Pending(step) => Some(
                match step {
                    SetupStep::CreateDevice => SetupAction::CreateDevice(
                        DeviceRequest {
                            driver: DriverKind::Hardware,
                            min_feature_level: FeatureLevel::Level11_1,
                            bgra_support: true,
                        },
                    ),
                    SetupStep::AdaptDevice => SetupAction::AdaptDevice,
                    SetupStep::ResolveItem => SetupAction::ResolveItem(self.source),
                    SetupStep::ReadSize => SetupAction::ReadSize,
                    SetupStep::AllocatePool => SetupAction::AllocatePool(
                        make_pool_request(self.size),
                    ),
                    SetupStep::CreateSession => SetupAction::CreateSession,
                    SetupStep::Subscribe => SetupAction::Subscribe,
                },
            ),
            _ => None,
        }
    }

    /// Takes in the platform's answer to the pending step.
    pub fn advance(&mut self, report: StepReport)
        ensures
            final(self)@ == setup_advance(old(self)@, report),
    {
        if let SetupPhase::Pending(step) = self.phase {
            match report {
                StepReport::Failed(code) => {
                    self.phase = SetupPhase::Failed(failure_of(step, code));
                },
                StepReport::Size(size) => {
                    if let SetupStep::ReadSize = step {
                        self.size = size;
                        self.phase = successor_of(step);
                    }
                },
                StepReport::Done => {
                    match step {
                        SetupStep::ReadSize => {},
                        _ => {
                            self.phase = successor_of(step);
                        },
                    }
                },
            }
        }
    }
}

/// The error for a failure of `step` with status `code`.
pub fn failure_of(step: SetupStep, code: i32) -> (error: CaptureError)
    ensures
        error == step_error(step, code),
{
    match step {
        SetupStep::CreateDevice | SetupStep::AdaptDevice => CaptureError::DeviceCreationFailed(code),
        SetupStep::ResolveItem | SetupStep::ReadSize => CaptureError::SourceResolutionFailed(code),
        SetupStep::AllocatePool => CaptureError::PoolCreationFailed(code),
        SetupStep::CreateSession => CaptureError::SessionCreationFailed(code),
        SetupStep::Subscribe => CaptureError::SubscriptionFailed(code),
    }
}

/// The phase reached once `step` has succeeded.
pub fn successor_of(step: SetupStep) -> (phase: SetupPhase)
    ensures
        phase == phase_after(step),
{
    match step {
        SetupStep::CreateDevice => SetupPhase::Pending(SetupStep::AdaptDevice),
        SetupStep::AdaptDevice => SetupPhase::Pending(SetupStep::ResolveItem),
        SetupStep::ResolveItem => SetupPhase::Pending(SetupStep::ReadSize),
        SetupStep::ReadSize => SetupPhase::Pending(SetupStep::AllocatePool),
        SetupStep::AllocatePool => SetupPhase::Pending(SetupStep::CreateSession),
        SetupStep::CreateSession => SetupPhase::Pending(SetupStep::Subscribe),
        SetupStep::Subscribe => SetupPhase::Ready,
    }
}

/// The state reached from `s` after the reports of `reports`, in order.
pub open spec fn setup_run(s: SetupView, reports: Seq<StepReport>) -> SetupView
    decreases reports.len(),
{
    if reports.len() == 0 {
        s
    } else {
        setup_advance(setup_run(s, reports.drop_last()), reports.last())
    }
}

/// The position of a step in the construction sequence.
pub open spec fn step_index(step: SetupStep) -> nat {
    match step {
        SetupStep::CreateDevice => 0,
        SetupStep::AdaptDevice => 1,
        SetupStep::ResolveItem => 2,
        SetupStep::ReadSize => 3,
        SetupStep::AllocatePool => 4,
        SetupStep::CreateSession => 5,
        SetupStep::Subscribe => 6,
    }
}

/// How far a phase is into the sequence: the index of the pending step, 7
/// when ready.
pub open spec fn phase_progress(phase: SetupPhase) -> nat {
    match phase {
        SetupPhase::Pending(step) => step_index(step),
        SetupPhase::Ready => 7,
        SetupPhase::Failed(_) => 0,
    }
}

/// No step is skipped: every step that construction has behind it took a
/// report of its own. From the start, the pending step is never further
/// along than the number of reports given, so a ready session has taken at
/// least seven; the source bound at the start stays bound throughout.
pub proof fn lemma_setup_skips_nothing(source: CaptureSource, reports: Seq<StepReport>)
    ensures
        phase_progress(setup_run(setup_begin(source), reports).phase) <= reports.len(),
        setup_run(setup_begin(source), reports).phase is Ready ==> reports.len() >= 7,
        setup_run(setup_begin(source), reports).source == source,
    decreases reports.len(),
{
    if reports.len() > 0 {
        lemma_setup_skips_nothing(source, reports.drop_last());
    }
}

/// Once construction has failed, no later report revives it: the failure
/// stays, and no further action is asked for.
pub proof fn lemma_setup_failure_is_final(s: SetupView, reports: Seq<StepReport>)
    requires
        s.phase is Failed,
    ensures
        setup_run(s, reports) == s,
        setup_action(setup_run(s, reports)) is None,
    decreases reports.len(),
{
    if reports.len() > 0 {
        lemma_setup_failure_is_final(s, reports.drop_last());
    }
}

/// Seven fitting successes, and nothing less, make a session ready: after
/// the full sequence of successful reports the phase is `Ready`, the source
/// is the one construction began with and the size is the one that was read.
pub proof fn lemma_setup_succeeds(source: CaptureSource, size: Dimensions)
    ensures
        setup_run(
            setup_begin(source),
            seq![
                StepReport::Done,
                StepReport::Done,
                StepReport::Done,
                StepReport::Size(size),
                StepReport::Done,
                StepReport::Done,
                StepReport::Done,
            ],
        ) == (SetupView { source: source, phase: SetupPhase::Ready, size: size }),
{
    let r = seq![
        StepReport::Done,
        StepReport::Done,
        StepReport::Done,
        StepReport::Size(size),
        StepReport::Done,
        StepReport::Done,
        StepReport::Done,
    ];
    let s0 = setup_begin(source);
    assert(r.subrange(0, 0) =~= Seq::<StepReport>::empty());
    assert(setup_run(s0, r.subrange(0, 0)) == s0);
    assert(r.subrange(0, 1).drop_last() =~= r.subrange(0, 0));
    assert(setup_run(s0, r.subrange(0, 1)).phase == SetupPhase::Pending(SetupStep::AdaptDevice));
    assert(r.subrange(0, 2).drop_last() =~= r.subrange(0, 1));
    assert(setup_run(s0, r.subrange(0, 2)).phase == SetupPhase::Pending(SetupStep::ResolveItem));
    assert(r.subrange(0, 3).drop_last() =~= r.subrange(0, 2));
    assert(setup_run(s0, r.subrange(0, 3)).phase == SetupPhase::Pending(SetupStep::ReadSize));
    assert(r.subrange(0, 4).drop_last() =~= r.subrange(0, 3));
    assert(setup_run(s0, r.subrange(0, 4)).phase == SetupPhase::Pending(SetupStep::AllocatePool));
    assert(r.subrange(0, 5).drop_last() =~= r.subrange(0, 4));
    assert(setup_run(s0, r.subrange(0, 5)).phase == SetupPhase::Pending(SetupStep::CreateSession));
    assert(r.subrange(0, 6).drop_last() =~= r.subrange(0, 5));
    assert(setup_run(s0, r.subrange(0, 6)).phase == SetupPhase::Pending(SetupStep::Subscribe));
    assert(r.drop_last() =~= r.subrange(0, 6));
}

} // verus!
