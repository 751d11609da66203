//! The wgpu window example: keeping the surface configuration in step with
//! the window size, and what each outcome of fetching a frame leads to.

use vstd::prelude::*;
use crate::surface::Extent2D;

verus! {

/// The parts of the surface configuration that change with the window.
#[derive(Clone, Copy, Debug, PartialEq, Eq)]
pub struct SurfaceConfig {
    pub width: u32,
    pub height: u32,
    pub desired_maximum_frame_latency: u32,
}

/// The outcome of asking the surface for its next texture.
#[derive(Clone, Copy, Debug, PartialEq, Eq)]
pub enum SurfaceStatus {
    Success,
    /// Usable, but the surface should be reconfigured afterwards.
    Suboptimal,
    Timeout,
    Occluded,
    Outdated,
    Lost,
    Validation,
}

/// How a frame goes after the texture request.
#[derive(Clone, Copy, Debug, PartialEq, Eq)]
pub enum RenderPlan {
    /// Render and present; then reconfigure when asked to.
    Draw { reconfigure_after: bool },
    /// No texture: the request failed with this status.
    Failed(SurfaceStatus),
}

/// What the window does about a failed texture request.
#[derive(Debug, PartialEq, Eq)]
pub enum Recovery {
    /// Reconfigure the surface for the current size.
    Reconfigure,
    /// Report this message and carry on.
    Report(String),
    /// Nothing (the status was not a failure).
    Nothing,
}

/// The wgpu example's window state: the window size and the surface
/// configuration.
#[derive(Clone, Copy, Debug, PartialEq, Eq)]
pub struct State {
    pub size: Extent2D,
    pub config: SurfaceConfig,
}

/// The state and whether the surface must be configured again after a
/// resize to `new_size`.
pub open spec fn resize_spec(s: State, new_size: Extent2D) -> (State, bool) {
    if new_size.width == 0 || new_size.height == 0 {
        (s, false)
    } else {
        (
            State {
                size: new_size,
                config: SurfaceConfig {
                    width: new_size.width,
                    height: new_size.height,
                    ..s.config
                },
            },
            true,
        )
    }
}

impl State {
    /// The surface is configured for the window size.
    pub open spec fn wf(self) -> bool {
        self.config.width == self.size.width && self.config.height == self.size.height
    }

    /// The initial state: the surface is configured for the window size,
    /// with at most two frames queued.
    pub fn new(size: Extent2D) -> (state: State)
        ensures
            state.wf(),
            state.size == size,
            state.config.width == size.width,
            state.config.height == size.height,
            state.config.desired_maximum_frame_latency == 2,
    {
        State {
            size,
            config: SurfaceConfig {
                width: size.width,
                height: size.height,
                desired_maximum_frame_latency: 2,
            },
        }
    }

    /// Follows a window resize: a size without area is ignored; otherwise
    /// the size and the configuration take the new size and the surface
    /// must be configured again (the result says whether).
    pub fn resize(&mut self, new_size: Extent2D) -> (configure: bool)
        ensures
            (*final(self), configure) == resize_spec(*old(self), new_size),
            old(self).wf() ==> final(self).wf(),
            configure == (new_size.width != 0 && new_size.height != 0),
            !configure ==> *final(self) == *old(self),
            configure ==> {
                &&& final(self).size == new_size
                &&& final(self).config.width == new_size.width
                &&& final(self).config.height == new_size.height
                &&& final(self).config.desired_maximum_frame_latency == old(
                    self,
                ).config.desired_maximum_frame_latency
            },
    {
        if new_size.width == 0 || new_size.height == 0 {
            return false;
        }
        self.size = new_size;
        self.config.width = new_size.width;
        self.config.height = new_size.height;
        true
    }

    /// Success and suboptimal textures are rendered (the latter followed by
    /// a reconfiguration); anything else fails the frame.
    pub fn render_plan(status: SurfaceStatus) -> (plan: RenderPlan)
        ensures
            plan == render_plan_spec(status),
    {
        match status {
            SurfaceStatus::Success => RenderPlan::Draw { reconfigure_after: false },
            SurfaceStatus::Suboptimal => RenderPlan::Draw { reconfigure_after: true },
            other => RenderPlan::Failed(other),
        }
    }

    /// A lost or outdated surface is reconfigured for the current size; a
    /// timeout, an occluded window or a validation error is reported.
    pub fn recovery(status: SurfaceStatus) -> (r: Recovery)
        ensures
            reconfigures(status) ==> r == Recovery::Reconfigure,
            report_message(status) matches Some(msg) ==> (r matches Recovery::Report(m) && m@
                == msg),
            !reconfigures(status) && report_message(status) is None ==> r == Recovery::Nothing,
    {
        match status {
            SurfaceStatus::Lost => Recovery::Reconfigure,
            SurfaceStatus::Outdated => Recovery::Reconfigure,
            SurfaceStatus::Timeout => Recovery::Report("Surface timeout".to_owned()),
            SurfaceStatus::Occluded => Recovery::Report("Surface occluded".to_owned()),
            SurfaceStatus::Validation => Recovery::Report("Surface validation error".to_owned()),
            _ => Recovery::Nothing,
        }
    }
}

/// The plan of a frame for a texture request with this outcome.
pub open spec fn render_plan_spec(status: SurfaceStatus) -> RenderPlan {
    match status {
        SurfaceStatus::Success => RenderPlan::Draw { reconfigure_after: false },
        SurfaceStatus::Suboptimal => RenderPlan::Draw { reconfigure_after: true },
        other => RenderPlan::Failed(other),
    }
}

/// The failure is answered by reconfiguring the surface.
pub open spec fn reconfigures(status: SurfaceStatus) -> bool {
    status == SurfaceStatus::Lost || status == SurfaceStatus::Outdated
}

/// The message with which the failure is reported, if it is reported.
pub open spec fn report_message(status: SurfaceStatus) -> Option<Seq<char>> {
    match status {
        SurfaceStatus::Timeout => Some("Surface timeout"@),
        SurfaceStatus::Occluded => Some("Surface occluded"@),
        SurfaceStatus::Validation => Some("Surface validation error"@),
        _ => None,
    }
}

/// Every texture request is handled: it is either rendered, or it failed
/// and is then answered in exactly one way, by reconfiguring the surface or
/// by reporting it.
pub proof fn lemma_every_outcome_handled(status: SurfaceStatus)
    ensures
        render_plan_spec(status) is Draw <==> !(reconfigures(status) || report_message(
            status,
        ) is Some),
        render_plan_spec(status) is Failed ==> (reconfigures(status) != (report_message(
            status,
        ) is Some)),
        render_plan_spec(status) matches RenderPlan::Failed(s) ==> s == status,
{
}

/// Reconfiguring for the current size, as the window does after a
/// suboptimal frame or a lost or outdated surface, keeps the state as it is
/// (only the surface is configured again, when the window has area); and
/// resizing twice to the same size is the same as resizing once.
pub proof fn lemma_reconfigure_keeps_state(s: State, new_size: Extent2D)
    requires
        s.wf(),
    ensures
        resize_spec(s, s.size) == (s, s.size.width != 0 && s.size.height != 0),
        resize_spec(resize_spec(s, new_size).0, new_size) == resize_spec(s, new_size),
        resize_spec(s, new_size).0.wf(),
{
}

} // verus!
