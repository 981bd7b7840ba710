use quad_engine::driver::{background, Action, Driver, Event, ObservedSize, Phase};
use quad_engine::surface::{SurfaceConfig, SurfaceFormat};

fn config() -> SurfaceConfig {
    SurfaceConfig {
        width: 800,
        height: 800,
        format: SurfaceFormat { code: 1, srgb: true },
        present_mode: 0,
        alpha_mode: 0,
        frame_latency: 2,
    }
}

#[test]
fn fresh_driver_is_idle() {
    let d = Driver::new(config());
    assert_eq!(d.phase, Phase::Idle);
    assert_eq!(d.frames_presented, 0);
    assert_eq!(d.frames_skipped, 0);
    assert!(!d.exit_requested);
    assert_eq!(d.last_resize, None);
}

#[test]
fn full_render_tick_draws_and_presents() {
    let mut d = Driver::new(config());
    assert_eq!(d.handle_event(Event::Wake), Action::AcquireFrame);
    assert_eq!(d.phase, Phase::Rendering);
    let action = d.frame_acquired(true);
    match action {
        Action::Draw(plan) => {
            assert_eq!(plan.clear, background());
            assert_eq!((plan.clear.r_tenths, plan.clear.g_tenths), (1, 2));
            assert_eq!((plan.clear.b_tenths, plan.clear.a_tenths), (3, 10));
            assert_eq!(plan.draw.first_vertex, 0);
            assert_eq!(plan.draw.vertex_count, 6);
            assert_eq!(plan.draw.first_instance, 0);
            assert_eq!(plan.draw.instance_count, 1);
        }
        other => panic!("expected a draw, got {:?}", other),
    }
    assert_eq!(d.phase, Phase::Idle);
    assert_eq!(d.frames_presented, 1);
    assert_eq!(d.frames_skipped, 0);
}

#[test]
fn failed_acquisition_skips_the_tick() {
    let mut d = Driver::new(config());
    assert_eq!(d.handle_event(Event::Wake), Action::AcquireFrame);
    assert_eq!(d.frame_acquired(false), Action::SkipFrame);
    assert_eq!(d.phase, Phase::Idle);
    assert_eq!(d.frames_presented, 0);
    assert_eq!(d.frames_skipped, 1);

    assert_eq!(d.handle_event(Event::Wake), Action::AcquireFrame);
    match d.frame_acquired(true) {
        Action::Draw(_) => {}
        other => panic!("expected a draw, got {:?}", other),
    }
    assert_eq!(d.frames_presented, 1);
    assert_eq!(d.frames_skipped, 1);
}

#[test]
fn resize_is_observed_but_never_reconfigures() {
    let mut d = Driver::new(config());
    let a = d.handle_event(Event::Resized { width: 400, height: 300 });
    assert_eq!(a, Action::Continue);
    assert_eq!(d.last_resize, Some(ObservedSize { width: 400, height: 300 }));
    assert_eq!(d.config.width, 800);
    assert_eq!(d.config.height, 800);

    assert_eq!(d.handle_event(Event::Wake), Action::AcquireFrame);
    d.frame_acquired(true);
    assert_eq!(d.config.width, 800);
    assert_eq!(d.config.height, 800);
}

#[test]
fn close_request_exits_the_loop() {
    let mut d = Driver::new(config());
    assert_eq!(d.handle_event(Event::CloseRequested), Action::Exit);
    assert!(d.exit_requested);
    assert_eq!(d.handle_event(Event::Wake), Action::Continue);
    assert_eq!(d.frames_presented, 0);
}
