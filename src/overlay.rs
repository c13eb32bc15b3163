//! The overlay's lifecycle and the decisions of the presentation interceptor.
//!
//! The first presentation call after the hook is installed builds the overlay
//! and hooks the window procedure; every call, the first included, renders the
//! overlay and then forwards to the original presentation function with the
//! arguments it received. Presentation calls are not concurrent with each
//! other, so the lifecycle needs no lock.
use vstd::prelude::*;

verus! {

/// The arguments of one presentation call.
#[derive(Clone, Copy, Debug, PartialEq, Eq, Structural)]
pub struct PresentCall {
    /// The presentation surface (the swap chain's interface pointer).
    pub surface: usize,
    pub sync_interval: u32,
    pub flags: u32,
}

/// Where the overlay stands. It only moves forward: `Uninitialized`, then
/// `Initializing` within the first presentation call, then `Active` for the
/// life of the process.
#[derive(Clone, Copy, Debug, PartialEq, Eq, Structural)]
pub enum Lifecycle {
    Uninitialized,
    Initializing,
    /// The overlay is built and the window procedure that it replaced is saved.
    Active { saved_window_proc: usize },
}

/// What the interceptor does for one presentation call: build the overlay
/// first when `initialize` holds, render it, then call the original function
/// with `forward`.
#[derive(Clone, Copy, Debug, PartialEq, Eq, Structural)]
pub struct PresentPlan {
    pub initialize: bool,
    pub forward: PresentCall,
}

/// Whether the window that owns the surface can be hooked.
#[derive(Clone, Copy, Debug, PartialEq, Eq, Structural)]
pub enum WindowStatus {
    Valid,
    /// The handle is null or the invalid-handle value: overlay input will not
    /// work, but frames are still rendered and presented.
    Invalid,
}

/// What a presentation call hands back to the host.
#[derive(Clone, Copy, Debug, PartialEq, Eq, Structural)]
pub struct FrameOutcome {
    /// The original function's status, unchanged.
    pub status: i32,
    /// The overlay failed to render and the failure is to be reported.
    pub render_failed: bool,
}

/// The process-wide overlay state.
pub struct Overlay {
    lifecycle: Lifecycle,
}

pub open spec fn present_plan(l: Lifecycle, call: PresentCall) -> PresentPlan {
    PresentPlan { initialize: l is Uninitialized, forward: call }
}

pub open spec fn lifecycle_after_present(l: Lifecycle) -> Lifecycle {
    if l is Uninitialized {
        Lifecycle::Initializing
    } else {
        l
    }
}

/// The null handle and the invalid-handle value (all bits set).
pub open spec fn window_is_invalid(window: isize) -> bool {
    window == 0 || window == -1
}

impl View for Overlay {
    type V = Lifecycle;

    closed spec fn view(&self) -> Lifecycle {
        self.lifecycle
    }
}

impl Overlay {
    /// The state before any presentation call was seen.
    pub fn new() -> (r: Overlay)
        ensures
            r@ == Lifecycle::Uninitialized,
    {
        Overlay { lifecycle: Lifecycle::Uninitialized }
    }

    pub fn lifecycle(&self) -> (r: Lifecycle)
        ensures
            r == self@,
    {
        self.lifecycle
    }

    /// The overlay is built and its window procedure is in place.
    pub fn is_ready(&self) -> (r: bool)
        ensures
            r == self@ is Active,
    {
        match self.lifecycle {
            Lifecycle::Active { .. } => true,
            _ => false,
        }
    }

    /// The window procedure that the overlay replaced, once it is ready.
    pub fn saved_window_proc(&self) -> (r: Option<usize>)
        ensures
            r == (match self@ {
                Lifecycle::Active { saved_window_proc } => Some(saved_window_proc),
                _ => None::<usize>,
            }),
    {
        match self.lifecycle {
            Lifecycle::Active { saved_window_proc } => Some(saved_window_proc),
            _ => None,
        }
    }

    /// Starts a presentation call: the overlay is built on the first call
    /// only, and the call is always forwarded with its own arguments.
    pub fn begin_present(&mut self, call: PresentCall) -> (plan: PresentPlan)
        ensures
            plan == present_plan(old(self)@, call),
            final(self)@ == lifecycle_after_present(old(self)@),
    {
        let initialize = match self.lifecycle {
            Lifecycle::Uninitialized => true,
            _ => false,
        };
        if initialize {
            self.lifecycle = Lifecycle::Initializing;
        }
        PresentPlan { initialize, forward: call }
    }

    /// Ends the one-time setup: the window procedure of `window` was replaced
    /// and `previous_proc` is what it was. Reports whether the window handle
    /// was usable.
    pub fn complete_init(&mut self, window: isize, previous_proc: usize) -> (r: WindowStatus)
        requires
            old(self)@ is Initializing,
        ensures
            final(self)@ == (Lifecycle::Active { saved_window_proc: previous_proc }),
            r == window_status(window),
    {
        self.lifecycle = Lifecycle::Active { saved_window_proc: previous_proc };
        check_window(window)
    }
}

pub open spec fn window_status(window: isize) -> WindowStatus {
    if window_is_invalid(window) {
        WindowStatus::Invalid
    } else {
        WindowStatus::Valid
    }
}

/// Whether a window handle can carry the overlay's window procedure.
pub fn check_window(window: isize) -> (r: WindowStatus)
    ensures
        r == window_status(window),
{
    if window == 0 || window == -1 {
        WindowStatus::Invalid
    } else {
        WindowStatus::Valid
    }
}

pub open spec fn frame_outcome(rendered: bool, status: i32) -> FrameOutcome {
    FrameOutcome { status, render_failed: !rendered }
}

/// Ends a presentation call: `status` is what the original function returned
/// and is handed back unchanged, whether or not the overlay rendered.
pub fn finish_present(rendered: bool, status: i32) -> (r: FrameOutcome)
    ensures
        r == frame_outcome(rendered, status),
{
    FrameOutcome { status, render_failed: !rendered }
}

/// One presentation call as the embedding program drives it: the call's
/// arguments; the saved window procedure when it built the overlay in this
/// call (`None` when it did not, or could not finish); whether the overlay
/// rendered.
pub type Frame = (PresentCall, Option<usize>, bool);

pub open spec fn lifecycle_after_frame(l: Lifecycle, f: Frame) -> Lifecycle {
    if present_plan(l, f.0).initialize && f.1 is Some {
        Lifecycle::Active { saved_window_proc: f.1->0 }
    } else {
        lifecycle_after_present(l)
    }
}

/// The plans of a sequence of presentation calls, starting from `l`.
pub open spec fn frame_plans(l: Lifecycle, frames: Seq<Frame>) -> Seq<PresentPlan>
    decreases frames.len(),
{
    if frames.len() == 0 {
        Seq::empty()
    } else {
        seq![present_plan(l, frames[0].0)] + frame_plans(
            lifecycle_after_frame(l, frames[0]),
            frames.drop_first(),
        )
    }
}

/// How many plans build the overlay.
pub open spec fn initializations(plans: Seq<PresentPlan>) -> nat
    decreases plans.len(),
{
    if plans.len() == 0 {
        0
    } else {
        (if plans[0].initialize {
            1nat
        } else {
            0nat
        }) + initializations(plans.drop_first())
    }
}

/// Every presentation call is forwarded exactly once, with the arguments it
/// was made with, and the original function's status is handed back
/// unchanged, whatever became of building and rendering the overlay.
pub proof fn lemma_every_call_forwarded(l: Lifecycle, frames: Seq<Frame>)
    ensures
        frame_plans(l, frames).len() == frames.len(),
        forall|i: int|
            0 <= i < frames.len() ==> #[trigger] frame_plans(l, frames)[i].forward == frames[i].0,
        forall|i: int, status: i32|
            0 <= i < frames.len() ==> (#[trigger] frame_outcome(frames[i].2, status)).status
                == status,
    decreases frames.len(),
{
    if frames.len() > 0 {
        let rest = frames.drop_first();
        let l1 = lifecycle_after_frame(l, frames[0]);
        lemma_every_call_forwarded(l1, rest);
        assert forall|i: int| 0 <= i < frames.len() implies #[trigger] frame_plans(
            l,
            frames,
        )[i].forward == frames[i].0 by {
            if i > 0 {
                assert(frame_plans(l, frames)[i] == frame_plans(l1, rest)[i - 1]);
                assert(rest[i - 1] == frames[i]);
            }
        }
    }
}

proof fn lemma_no_initialization_after_start(l: Lifecycle, frames: Seq<Frame>)
    requires
        !(l is Uninitialized),
    ensures
        initializations(frame_plans(l, frames)) == 0,
    decreases frames.len(),
{
    if frames.len() > 0 {
        let plans = frame_plans(l, frames);
        lemma_no_initialization_after_start(lifecycle_after_frame(l, frames[0]), frames.drop_first());
        assert(plans.drop_first() == frame_plans(
            lifecycle_after_frame(l, frames[0]),
            frames.drop_first(),
        ));
    }
}

/// Across one or more presentation calls from the start, the overlay is built
/// exactly once, in the first call, even when that build never completes or
/// rendering fails: no render outcome enters the plans.
pub proof fn lemma_initialized_once(frames: Seq<Frame>)
    requires
        frames.len() >= 1,
    ensures
        initializations(frame_plans(Lifecycle::Uninitialized, frames)) == 1,
        frame_plans(Lifecycle::Uninitialized, frames)[0].initialize,
{
    let l = Lifecycle::Uninitialized;
    let l1 = lifecycle_after_frame(l, frames[0]);
    let plans = frame_plans(l, frames);
    lemma_no_initialization_after_start(l1, frames.drop_first());
    assert(plans.drop_first() == frame_plans(l1, frames.drop_first()));
}

} // verus!
