//! The renderer session and its event-driven state machine: startup
//! negotiation, resize handling with the one-shot spurious-resize
//! suppression, and the per-event decisions the loop driver carries out.

use vstd::prelude::*;
use crate::sample::MsaaSupport;
use crate::sample::chosen_sample_count;
use crate::sample::choose_sample_count;
use crate::sample::lemma_chosen_sample_count_supported;
use crate::surface::PRESENT_MODE_AUTO_VSYNC;
use crate::surface::SurfaceConfig;
use crate::surface::SurfaceFormat;
use crate::surface::select_surface_format;
use crate::surface::selected_format_index;
use crate::target::MsaaTarget;
use crate::target::ensure_msaa_target;
use crate::target::msaa_target_for;
use crate::mesh::QuadMesh;
use crate::mesh::quad_indices;
use crate::mesh::quad_mesh;
use crate::mesh::quad_vertices;
use crate::pipeline::PipelinePlan;
use crate::pipeline::pipeline_plan_for;
use crate::pipeline::plan_pipeline;
use crate::texture::TexturePlan;
use crate::texture::build_texture_plan;
use crate::texture::decode_rgba;
use crate::texture::rgba_decoding_of;
use crate::texture::texture_plan_matches;

verus! {

/// The phase of the render loop: dispatching events, or terminated by a
/// close request.
#[derive(Clone, Copy, Debug, PartialEq, Eq)]
pub enum Phase {
    Ready,
    Closed,
}

/// A window or lifecycle event, reduced to plain values by the shell.
#[derive(Clone, Copy, Debug, PartialEq, Eq)]
pub enum SessionEvent {
    CloseRequested,
    Resized { width: u32, height: u32 },
    ScaleFactorChanged { width: u32, height: u32 },
    RedrawRequested,
    EventsCleared,
}

/// What the shell must do after one event is dispatched.
#[derive(Clone, Copy, Debug, PartialEq, Eq)]
pub enum SessionAction {
    /// Nothing: the event was ignored or only consumed the suppression.
    Idle,
    /// Stop dispatching events; the session is closed.
    Exit,
    /// Re-bind the presentable surface to the session's configuration,
    /// re-create the multisample target per the session's descriptor,
    /// then request a redraw.
    Reconfigure,
    /// Ask the window for a redraw.
    RequestRedraw,
    /// Render one frame.
    Render,
}

/// The renderer session: the one owned object the loop driver threads
/// through the event loop. It owns the surface configuration, the
/// negotiated sample count, the multisample target descriptor, and the
/// one-shot spurious-resize suppression.
#[derive(Clone, Copy, Debug, PartialEq, Eq)]
pub struct Session {
    pub config: SurfaceConfig,
    pub sample_count: u32,
    pub msaa: Option<MsaaTarget>,
    pub suppress_next_resize: bool,
    pub phase: Phase,
}

impl Session {
    /// Session invariant: the surface has a non-zero extent, the sample
    /// count is positive, and the multisample target descriptor is
    /// exactly the one the configuration and sample count call for —
    /// present if and only if the sample count exceeds 1, and then sized
    /// and formatted like the surface.
    pub open spec fn wf(self) -> bool {
        &&& self.config.wf()
        &&& self.sample_count >= 1
        &&& self.msaa == msaa_target_for(self.config, self.sample_count)
    }
}

/// The session after a size change: a zero extent is intentionally
/// ignored; otherwise the configuration takes the new size and the
/// multisample target descriptor is recomputed for it.
pub open spec fn resized_session(s: Session, width: u32, height: u32) -> Session {
    if width == 0 || height == 0 {
        s
    } else {
        let config = SurfaceConfig { width, height, ..s.config };
        Session { config, msaa: msaa_target_for(config, s.sample_count), ..s }
    }
}

/// The session after one event: close requests end the session; an armed
/// suppression swallows the first resize event whole; further resize and
/// scale-factor events resize; redraw and idle events change nothing.
pub open spec fn step_session(s: Session, event: SessionEvent) -> Session {
    match event {
        SessionEvent::CloseRequested => Session { phase: Phase::Closed, ..s },
        SessionEvent::Resized { width, height } => {
            if s.suppress_next_resize {
                Session { suppress_next_resize: false, ..s }
            } else {
                resized_session(s, width, height)
            }
        },
        SessionEvent::ScaleFactorChanged { width, height } => resized_session(s, width, height),
        SessionEvent::RedrawRequested => s,
        SessionEvent::EventsCleared => s,
    }
}

/// The action one event calls for.
pub open spec fn step_action(s: Session, event: SessionEvent) -> SessionAction {
    match event {
        SessionEvent::CloseRequested => SessionAction::Exit,
        SessionEvent::Resized { width, height } => {
            if s.suppress_next_resize {
                SessionAction::Idle
            } else if width == 0 || height == 0 {
                SessionAction::Idle
            } else {
                SessionAction::Reconfigure
            }
        },
        SessionEvent::ScaleFactorChanged { width, height } => {
            if width == 0 || height == 0 {
                SessionAction::Idle
            } else {
                SessionAction::Reconfigure
            }
        },
        SessionEvent::RedrawRequested => SessionAction::Render,
        SessionEvent::EventsCleared => SessionAction::RequestRedraw,
    }
}

impl Session {
    /// Shared resize path of real and scale-factor size changes: ignore a
    /// zero extent, else take the new size and recompute the multisample
    /// target descriptor so it never holds a stale size.
    fn apply_resize(&mut self, width: u32, height: u32) -> (action: SessionAction)
        requires
            old(self).wf(),
        ensures
            *final(self) == resized_session(*old(self), width, height),
            final(self).wf(),
            action == (if width == 0 || height == 0 {
                SessionAction::Idle
            } else {
                SessionAction::Reconfigure
            }),
    {
        let changed = self.config.resize(width, height);
        if !changed {
            return SessionAction::Idle;
        }
        self.msaa = ensure_msaa_target(&self.config, self.sample_count);
        SessionAction::Reconfigure
    }

    /// Dispatch one event of the ready session and say what the shell
    /// must do: close requests close the session; while the suppression
    /// is armed the first resize event is swallowed exactly once and the
    /// flag is never re-armed; other resize and scale-factor events
    /// resize surface and target together; redraw requests render; an
    /// idle notification asks for the next redraw.
    pub fn handle_event(&mut self, event: SessionEvent) -> (action: SessionAction)
        requires
            old(self).wf(),
            old(self).phase is Ready,
        ensures
            *final(self) == step_session(*old(self), event),
            action == step_action(*old(self), event),
            final(self).wf(),
    {
        match event {
            SessionEvent::CloseRequested => {
                self.phase = Phase::Closed;
                SessionAction::Exit
            },
            SessionEvent::Resized { width, height } => {
                if self.suppress_next_resize {
                    self.suppress_next_resize = false;
                    SessionAction::Idle
                } else {
                    self.apply_resize(width, height)
                }
            },
            SessionEvent::ScaleFactorChanged { width, height } => self.apply_resize(width, height),
            SessionEvent::RedrawRequested => SessionAction::Render,
            SessionEvent::EventsCleared => SessionAction::RequestRedraw,
        }
    }
}

/// What the device probe produced: the surface capabilities and the
/// multisample support of a compatible adapter and device, reduced to
/// plain values — or nothing, when no compatible pair could be acquired.
#[derive(Clone, Debug, PartialEq, Eq)]
pub struct AdapterInfo {
    pub formats: Vec<SurfaceFormat>,
    pub alpha_modes: Vec<u32>,
    pub msaa: MsaaSupport,
}

/// The outcome of probing for a compatible adapter and logical device.
#[derive(Clone, Debug, PartialEq, Eq)]
pub enum GpuProbe {
    Unavailable,
    Available(AdapterInfo),
}

/// A fatal startup error: the process reports it and never enters the
/// render loop.
#[derive(Clone, Copy, Debug, PartialEq, Eq)]
pub enum InitError {
    NoCompatibleGpu,
    ImageUndecodable,
}

/// Everything startup builds once: the session, and the immutable
/// pipeline, texture and mesh plans the shell turns into GPU objects.
#[derive(Clone, Debug, PartialEq, Eq)]
pub struct StartupPlan {
    pub session: Session,
    pub pipeline: PipelinePlan,
    pub texture: TexturePlan,
    pub mesh: QuadMesh,
}

/// Start the renderer session: select the surface format (first
/// sRGB-capable, else the first available), negotiate the sample count
/// closest to the preference, configure the surface at the window size,
/// decode the embedded image, and build the pipeline, texture and mesh
/// plans. Fails — and the process never enters the render loop — exactly
/// when no compatible adapter and device was found, or the image asset
/// cannot be decoded.
pub fn initialize(
    probe: GpuProbe,
    width: u32,
    height: u32,
    preferred_sample_count: u32,
    suppress_first_resize: bool,
    image_bytes: &Vec<u8>,
) -> (r: Result<StartupPlan, InitError>)
    requires
        width > 0,
        height > 0,
        (probe matches GpuProbe::Available(adapter) ==> adapter.formats@.len() > 0
            && adapter.alpha_modes@.len() > 0),
    ensures
        (probe is Unavailable <==> r == Err::<StartupPlan, InitError>(InitError::NoCompatibleGpu)),
        (probe is Available ==> (rgba_decoding_of(image_bytes@) is None <==> r == Err::<
            StartupPlan,
            InitError,
        >(InitError::ImageUndecodable))),
        (r matches Ok(plan) ==> probe matches GpuProbe::Available(adapter) && ({
            let fmt = adapter.formats@[selected_format_index(adapter.formats@)];
            let negotiated = chosen_sample_count(adapter.msaa, preferred_sample_count);
            &&& plan.session.wf()
            &&& plan.session.phase is Ready
            &&& plan.session.suppress_next_resize == suppress_first_resize
            &&& plan.session.config == (SurfaceConfig {
                format: fmt,
                width,
                height,
                present_mode: PRESENT_MODE_AUTO_VSYNC,
                alpha_mode: adapter.alpha_modes@[0],
            })
            &&& plan.session.sample_count == negotiated
            &&& plan.pipeline == pipeline_plan_for(fmt, negotiated)
            &&& (rgba_decoding_of(image_bytes@) matches Some(decoded) && texture_plan_matches(
                plan.texture,
                decoded.0,
                decoded.1,
                decoded.2,
            ))
            &&& plan.mesh.wf()
            &&& plan.mesh.vertices@ == quad_vertices()
            &&& plan.mesh.indices@ == quad_indices()
        })),
{
    let adapter = match probe {
        GpuProbe::Unavailable => {
            return Err(InitError::NoCompatibleGpu);
        },
        GpuProbe::Available(info) => info,
    };
    let image_data = match decode_rgba(image_bytes) {
        Option::None => {
            return Err(InitError::ImageUndecodable);
        },
        Option::Some(decoded) => decoded,
    };
    let format_index = select_surface_format(&adapter.formats);
    let format = adapter.formats[format_index];
    let alpha_mode = adapter.alpha_modes[0];
    let config = SurfaceConfig {
        format,
        width,
        height,
        present_mode: PRESENT_MODE_AUTO_VSYNC,
        alpha_mode,
    };
    let sample_count = choose_sample_count(&adapter.msaa, preferred_sample_count);
    proof {
        lemma_chosen_sample_count_supported(adapter.msaa, preferred_sample_count);
    }
    let msaa = ensure_msaa_target(&config, sample_count);
    let session = Session {
        config,
        sample_count,
        msaa,
        suppress_next_resize: suppress_first_resize,
        phase: Phase::Ready,
    };
    let pipeline = plan_pipeline(&config, sample_count);
    let texture = build_texture_plan(image_data);
    let mesh = quad_mesh();
    Ok(StartupPlan { session, pipeline, texture, mesh })
}

/// Law: the suppression flag, once consumed or never armed, is never
/// re-armed by any later event.
pub proof fn lemma_suppression_never_rearmed(s: Session, event: SessionEvent)
    requires
        !s.suppress_next_resize,
    ensures
        !step_session(s, event).suppress_next_resize,
{
}

/// Law: exactly one resize event is suppressed per session on the
/// affected platform family. An armed session consumes the flag on its
/// first resize event without touching configuration or target, and a
/// second resize event with these same dimensions is not suppressed: it
/// reconfigures and resizes.
pub proof fn lemma_first_resize_suppressed_once(s: Session, width: u32, height: u32)
    requires
        s.wf(),
        s.suppress_next_resize,
        width > 0,
        height > 0,
    ensures
        ({
            let first = step_session(s, SessionEvent::Resized { width, height });
            let second = step_session(first, SessionEvent::Resized { width, height });
            &&& step_action(s, SessionEvent::Resized { width, height }) is Idle
            &&& !first.suppress_next_resize
            &&& first.config == s.config
            &&& first.msaa == s.msaa
            &&& step_action(first, SessionEvent::Resized { width, height }) is Reconfigure
            &&& second.config.width == width
            &&& second.config.height == height
        }),
{
}

/// Law: a step from a well-formed session keeps it well formed; in
/// particular the multisample target descriptor never holds a size other
/// than the surface's.
pub proof fn lemma_step_preserves_wf(s: Session, event: SessionEvent)
    requires
        s.wf(),
    ensures
        step_session(s, event).wf(),
{
}

/// Law: after any successful non-zero, non-suppressed resize the surface
/// takes the new size and the multisample target — present exactly when
/// the sample count exceeds 1 — has exactly the surface's new
/// dimensions; format, sample count and phase are unchanged.
pub proof fn lemma_resize_updates_target(s: Session, width: u32, height: u32)
    requires
        s.wf(),
        !s.suppress_next_resize,
        width > 0,
        height > 0,
    ensures
        ({
            let t = step_session(s, SessionEvent::Resized { width, height });
            &&& t.config.width == width
            &&& t.config.height == height
            &&& t.config.format == s.config.format
            &&& t.sample_count == s.sample_count
            &&& (t.msaa is Some <==> s.sample_count > 1)
            &&& (t.msaa matches Some(m) ==> m.width == width && m.height == height && m.format
                == t.config.format && m.sample_count == s.sample_count)
            &&& t.phase == s.phase
        }),
{
}

} // verus!
