//! Per-frame planning: which render pass one frame uses — direct or
//! multisample-with-resolve — and what the loop does when acquiring or
//! presenting the frame's image fails.

use vstd::prelude::*;
use crate::session::Session;
use crate::target::MsaaTarget;

verus! {

/// Load and store behaviour of the render pass's single color
/// attachment.
#[derive(Clone, Copy, Debug, PartialEq, Eq)]
pub struct AttachmentOps {
    /// Cleared to the fixed background color on load.
    pub clear_to_background: bool,
    /// Stored after the pass; a discarded attachment keeps only its
    /// resolve result.
    pub store: bool,
}

/// The render pass for one frame: either the presentable image directly
/// (single sampling; the sole attachment is stored), or the multisample
/// target with the presentable image as resolve destination (the
/// attachment is discarded after resolve, since only the resolved result
/// is needed).
#[derive(Clone, Copy, Debug, PartialEq, Eq)]
pub enum RenderPassPlan {
    Direct { ops: AttachmentOps },
    Resolve { target: MsaaTarget, ops: AttachmentOps },
}

/// Plan the frame's render pass from the session. With a sample count of
/// 1 the sole color attachment is the presentable image, cleared and
/// stored. Above 1 the attachment is the session's multisample target —
/// sized exactly like the surface — cleared, not stored, and resolved
/// into the presentable image.
pub fn plan_render_pass(session: &Session) -> (p: RenderPassPlan)
    requires
        session.wf(),
    ensures
        session.sample_count == 1 ==> (p matches RenderPassPlan::Direct { ops }
            && ops.clear_to_background && ops.store),
        session.sample_count != 1 ==> (p matches RenderPassPlan::Resolve { target, ops }
            && Some(target) == session.msaa && target.width == session.config.width
            && target.height == session.config.height && target.format == session.config.format
            && target.sample_count == session.sample_count && ops.clear_to_background
            && !ops.store),
{
    if session.sample_count == 1 {
        RenderPassPlan::Direct { ops: AttachmentOps { clear_to_background: true, store: true } }
    } else {
        let target = MsaaTarget {
            width: session.config.width,
            height: session.config.height,
            format: session.config.format,
            sample_count: session.sample_count,
        };
        RenderPassPlan::Resolve {
            target,
            ops: AttachmentOps { clear_to_background: true, store: false },
        }
    }
}

/// How acquiring, drawing or presenting one frame ended, as the shell
/// reports it back from the graphics API.
#[derive(Clone, Copy, Debug, PartialEq, Eq)]
pub enum FrameOutcome {
    /// The frame was submitted and presented.
    Presented,
    /// The surface was lost and must be reconfigured before further use.
    SurfaceLost,
    /// The surface no longer matches the window and must be
    /// reconfigured.
    SurfaceOutdated,
    /// Acquiring the next image timed out.
    AcquireTimeout,
    /// The graphics device reported out-of-memory.
    OutOfMemory,
}

/// What the loop does next after a frame.
#[derive(Clone, Copy, Debug, PartialEq, Eq)]
pub enum FrameDirective {
    /// Keep going; nothing to repair.
    Proceed,
    /// Reconfigure the surface at the current size and retry on the next
    /// frame.
    ReconfigureAndRetry,
    /// Log, skip this frame, and keep the loop running.
    SkipFrame,
    /// Unrecoverable: terminate the process.
    Fatal,
}

/// The directive each outcome calls for: loss and outdatedness are
/// recoverable by reconfiguring, a timeout only skips the frame,
/// out-of-memory is fatal.
pub open spec fn directive_for(outcome: FrameOutcome) -> FrameDirective {
    match outcome {
        FrameOutcome::Presented => FrameDirective::Proceed,
        FrameOutcome::SurfaceLost => FrameDirective::ReconfigureAndRetry,
        FrameOutcome::SurfaceOutdated => FrameDirective::ReconfigureAndRetry,
        FrameOutcome::AcquireTimeout => FrameDirective::SkipFrame,
        FrameOutcome::OutOfMemory => FrameDirective::Fatal,
    }
}

/// Decide how the loop continues after one frame. Frame failures never
/// end the loop except out-of-memory; the session itself is unchanged by
/// any of them — a reconfiguration re-binds the surface at its current
/// size.
pub fn frame_directive(outcome: FrameOutcome) -> (d: FrameDirective)
    ensures
        d == directive_for(outcome),
{
    match outcome {
        FrameOutcome::Presented => FrameDirective::Proceed,
        FrameOutcome::SurfaceLost => FrameDirective::ReconfigureAndRetry,
        FrameOutcome::SurfaceOutdated => FrameDirective::ReconfigureAndRetry,
        FrameOutcome::AcquireTimeout => FrameDirective::SkipFrame,
        FrameOutcome::OutOfMemory => FrameDirective::Fatal,
    }
}

} // verus!
