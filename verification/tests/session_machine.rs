use atay2d::pass::FrameDirective;
use atay2d::pass::FrameOutcome;
use atay2d::pass::RenderPassPlan;
use atay2d::pass::frame_directive;
use atay2d::pass::plan_render_pass;
use atay2d::session::AdapterInfo;
use atay2d::session::GpuProbe;
use atay2d::session::InitError;
use atay2d::session::Phase;
use atay2d::session::Session;
use atay2d::session::SessionAction;
use atay2d::session::SessionEvent;
use atay2d::session::initialize;
use atay2d::sample::MsaaSupport;
use atay2d::surface::SurfaceConfig;
use atay2d::surface::SurfaceFormat;
use atay2d::surface::PRESENT_MODE_AUTO_VSYNC;
use atay2d::target::MsaaTarget;

use std::io::Cursor;

/// A small valid image byte stream, encoded as PNG in memory.
fn png_bytes(width: u32, height: u32) -> Vec<u8> {
    let mut raw: Vec<u8> = Vec::new();
    for i in 0..(4 * width * height) {
        raw.push((i % 251) as u8);
    }
    let img = image::RgbaImage::from_raw(width, height, raw).expect("raw buffer size");
    let mut bytes: Vec<u8> = Vec::new();
    img.write_to(&mut Cursor::new(&mut bytes), image::ImageOutputFormat::Png)
        .expect("png encoding");
    bytes
}

fn adapter(msaa: MsaaSupport) -> GpuProbe {
    GpuProbe::Available(AdapterInfo {
        formats: vec![
            SurfaceFormat { code: 0, srgb: false },
            SurfaceFormat { code: 1, srgb: true },
        ],
        alpha_modes: vec![9],
        msaa,
    })
}

fn ready_session(sample_count: u32, suppress: bool) -> Session {
    let config = SurfaceConfig {
        format: SurfaceFormat { code: 1, srgb: true },
        width: 720,
        height: 480,
        present_mode: PRESENT_MODE_AUTO_VSYNC,
        alpha_mode: 9,
    };
    let msaa = if sample_count == 1 {
        None
    } else {
        Some(MsaaTarget { width: 720, height: 480, format: config.format, sample_count })
    };
    Session { config, sample_count, msaa, suppress_next_resize: suppress, phase: Phase::Ready }
}

#[test]
fn adapter_failure_is_fatal_before_the_loop() {
    let bytes = png_bytes(2, 2);
    let r = initialize(GpuProbe::Unavailable, 720, 480, u32::MAX, false, &bytes);
    assert_eq!(r, Err(InitError::NoCompatibleGpu));
}

#[test]
fn undecodable_image_is_fatal() {
    let garbage = vec![1u8, 2, 3, 4, 5, 6, 7, 8];
    let r = initialize(adapter(MsaaSupport { x2: true, x4: true, x8: true }), 720, 480, 4, false, &garbage);
    assert_eq!(r, Err(InitError::ImageUndecodable));
}

#[test]
fn startup_negotiates_format_samples_and_texture() {
    let bytes = png_bytes(2, 3);
    let plan = initialize(
        adapter(MsaaSupport { x2: false, x4: true, x8: false }),
        720,
        480,
        u32::MAX,
        false,
        &bytes,
    )
    .expect("startup succeeds");
    // The sRGB-capable format is preferred; the preference u32::MAX is
    // unsupported and 4 is the only higher level.
    assert_eq!(plan.session.config.format, SurfaceFormat { code: 1, srgb: true });
    assert_eq!(plan.session.config.width, 720);
    assert_eq!(plan.session.config.height, 480);
    assert_eq!(plan.session.config.present_mode, PRESENT_MODE_AUTO_VSYNC);
    assert_eq!(plan.session.config.alpha_mode, 9);
    assert_eq!(plan.session.sample_count, 4);
    assert_eq!(plan.session.phase, Phase::Ready);
    assert!(!plan.session.suppress_next_resize);
    let target = plan.session.msaa.expect("multisampling needs a target");
    assert_eq!((target.width, target.height, target.sample_count), (720, 480, 4));
    assert_eq!(plan.pipeline.sample_count, 4);
    assert_eq!(plan.pipeline.format, plan.session.config.format);
    // The decoded embedded image drives the texture plan.
    assert_eq!(plan.texture.width, 2);
    assert_eq!(plan.texture.height, 3);
    assert_eq!(plan.texture.bytes_per_row, 8);
    assert_eq!(plan.texture.rows_per_image, 3);
    assert_eq!(plan.texture.pixels.len(), 24);
    let expected: Vec<u8> = (0..24u32).map(|i| (i % 251) as u8).collect();
    assert_eq!(plan.texture.pixels, expected);
    assert!(plan.texture.linear_filter);
    assert_eq!(plan.mesh.indices, vec![0u16, 1, 3, 3, 1, 2]);
}

#[test]
fn direct_pass_stores_its_sole_attachment() {
    let session = ready_session(1, false);
    match plan_render_pass(&session) {
        RenderPassPlan::Direct { ops } => {
            assert!(ops.clear_to_background);
            assert!(ops.store);
        },
        RenderPassPlan::Resolve { .. } => panic!("single sampling must render directly"),
    }
}

#[test]
fn resolve_pass_discards_the_msaa_attachment() {
    let session = ready_session(4, false);
    match plan_render_pass(&session) {
        RenderPassPlan::Resolve { target, ops } => {
            assert_eq!(Some(target), session.msaa);
            assert_eq!((target.width, target.height), (720, 480));
            assert!(ops.clear_to_background);
            assert!(!ops.store);
        },
        RenderPassPlan::Direct { .. } => panic!("multisampling must resolve"),
    }
}

#[test]
fn exactly_one_resize_is_suppressed() {
    let mut session = ready_session(4, true);
    let before = session;
    let first = session.handle_event(SessionEvent::Resized { width: 800, height: 600 });
    assert_eq!(first, SessionAction::Idle);
    assert!(!session.suppress_next_resize);
    assert_eq!(session.config, before.config);
    assert_eq!(session.msaa, before.msaa);
    // A second resize event with identical dimensions is NOT suppressed.
    let second = session.handle_event(SessionEvent::Resized { width: 800, height: 600 });
    assert_eq!(second, SessionAction::Reconfigure);
    assert_eq!((session.config.width, session.config.height), (800, 600));
    let target = session.msaa.expect("target stays present");
    assert_eq!((target.width, target.height), (800, 600));
}

#[test]
fn scale_factor_changes_are_never_suppressed() {
    let mut session = ready_session(1, true);
    let action = session.handle_event(SessionEvent::ScaleFactorChanged { width: 360, height: 240 });
    assert_eq!(action, SessionAction::Reconfigure);
    assert!(session.suppress_next_resize, "the one-shot flag is only consumed by a resize event");
    assert_eq!((session.config.width, session.config.height), (360, 240));
}

#[test]
fn zero_sized_resize_events_are_ignored() {
    let mut session = ready_session(4, false);
    let before = session;
    assert_eq!(session.handle_event(SessionEvent::Resized { width: 0, height: 600 }), SessionAction::Idle);
    assert_eq!(session.handle_event(SessionEvent::Resized { width: 800, height: 0 }), SessionAction::Idle);
    assert_eq!(session, before);
}

#[test]
fn close_request_is_terminal() {
    let mut session = ready_session(1, false);
    assert_eq!(session.handle_event(SessionEvent::CloseRequested), SessionAction::Exit);
    assert_eq!(session.phase, Phase::Closed);
}

#[test]
fn redraw_and_idle_events_drive_rendering() {
    let mut session = ready_session(1, false);
    assert_eq!(session.handle_event(SessionEvent::EventsCleared), SessionAction::RequestRedraw);
    assert_eq!(session.handle_event(SessionEvent::RedrawRequested), SessionAction::Render);
    assert_eq!(session, ready_session(1, false));
}

#[test]
fn frame_failures_map_to_their_directives() {
    assert_eq!(frame_directive(FrameOutcome::Presented), FrameDirective::Proceed);
    assert_eq!(frame_directive(FrameOutcome::SurfaceLost), FrameDirective::ReconfigureAndRetry);
    assert_eq!(frame_directive(FrameOutcome::SurfaceOutdated), FrameDirective::ReconfigureAndRetry);
    assert_eq!(frame_directive(FrameOutcome::AcquireTimeout), FrameDirective::SkipFrame);
    assert_eq!(frame_directive(FrameOutcome::OutOfMemory), FrameDirective::Fatal);
}

#[test]
fn window_to_second_frame_end_to_end() {
    // Window created at 720x480, device ready with 4x multisampling.
    let bytes = png_bytes(4, 4);
    let plan = initialize(
        adapter(MsaaSupport { x2: true, x4: true, x8: false }),
        720,
        480,
        4,
        false,
        &bytes,
    )
    .expect("startup succeeds");
    let mut session = plan.session;
    // First frame: a resolve pass over the full-surface target, then a
    // presented frame.
    match plan_render_pass(&session) {
        RenderPassPlan::Resolve { target, .. } => {
            assert_eq!((target.width, target.height), (720, 480));
        },
        RenderPassPlan::Direct { .. } => panic!("4x sampling must resolve"),
    }
    assert_eq!(frame_directive(FrameOutcome::Presented), FrameDirective::Proceed);
    // Resizing to 360x240 reallocates the multisample target to 360x240.
    let action = session.handle_event(SessionEvent::Resized { width: 360, height: 240 });
    assert_eq!(action, SessionAction::Reconfigure);
    let target = session.msaa.expect("target stays present");
    assert_eq!((target.width, target.height), (360, 240));
    // The next frame renders over the resized target and presents
    // without error.
    assert_eq!(session.handle_event(SessionEvent::RedrawRequested), SessionAction::Render);
    match plan_render_pass(&session) {
        RenderPassPlan::Resolve { target, ops } => {
            assert_eq!((target.width, target.height), (360, 240));
            assert!(!ops.store);
        },
        RenderPassPlan::Direct { .. } => panic!("4x sampling must resolve"),
    }
    assert_eq!(frame_directive(FrameOutcome::Presented), FrameDirective::Proceed);
}
