use rugu::error::{FatalError, SurfaceError};
use rugu::frame::{decide, frames_per_second, FrameAction, FrameState, Phase, NANOS_PER_SECOND};
use rugu::pipeline::{Color, IndexRange, RenderPass};

fn pass() -> RenderPass {
    RenderPass {
        clear: Color { r: 255, g: 0, b: 0, a: 255 },
        vertex_slot: 0,
        instance_slot: None,
        bind_group: None,
        vertices: IndexRange { start: 0, end: 3 },
        instances: IndexRange { start: 0, end: 1 },
    }
}

#[test]
fn frames_per_second_rounds_down() {
    assert_eq!(NANOS_PER_SECOND, 1_000_000_000);
    assert_eq!(frames_per_second(16_666_667), Some(59));
    assert_eq!(frames_per_second(16_666_666), Some(60));
    assert_eq!(frames_per_second(1_000_000_000), Some(1));
    assert_eq!(frames_per_second(1_000_000_001), Some(0));
    assert_eq!(frames_per_second(1), Some(1_000_000_000));
    assert_eq!(frames_per_second(u64::MAX), Some(0));
}

#[test]
fn a_frame_that_took_no_time_has_no_rate() {
    assert_eq!(frames_per_second(0), None);
    assert_eq!(FrameState::new(77).fps(), None);
}

#[test]
fn tick_measures_the_time_since_the_last_draw() {
    let mut frame = FrameState::new(1_000);
    assert_eq!(frame, FrameState { last_frame_nanos: 1_000, frame_nanos: 0 });
    frame.tick(21_000);
    assert_eq!(frame, FrameState { last_frame_nanos: 21_000, frame_nanos: 20_000 });
    frame.tick(20_021_000);
    assert_eq!(frame, FrameState { last_frame_nanos: 20_021_000, frame_nanos: 20_000_000 });
    assert_eq!(frame.fps(), Some(50));
    frame.tick(20_021_000);
    assert_eq!(frame, FrameState { last_frame_nanos: 20_021_000, frame_nanos: 0 });
}

#[test]
fn tick_takes_a_clock_that_went_backwards_as_no_time() {
    let mut frame = FrameState::new(500);
    frame.tick(100);
    assert_eq!(frame, FrameState { last_frame_nanos: 100, frame_nanos: 0 });
    frame.tick(u64::MAX);
    assert_eq!(frame, FrameState { last_frame_nanos: u64::MAX, frame_nanos: u64::MAX - 100 });
}

#[test]
fn an_acquired_image_is_rendered_to() {
    assert_eq!(decide(Phase::Idle, Ok(()), pass()), (Phase::Rendering, FrameAction::Render(pass())));
}

#[test]
fn a_timeout_costs_the_frame() {
    assert_eq!(
        decide(Phase::Idle, Err(SurfaceError::Timeout), pass()),
        (Phase::Idle, FrameAction::Skip)
    );
}

#[test]
fn an_outdated_or_lost_surface_is_configured_again() {
    assert_eq!(
        decide(Phase::Idle, Err(SurfaceError::Outdated), pass()),
        (Phase::Idle, FrameAction::Reconfigure)
    );
    assert_eq!(
        decide(Phase::Idle, Err(SurfaceError::Lost), pass()),
        (Phase::Idle, FrameAction::Reconfigure)
    );
}

#[test]
fn out_of_memory_ends_the_process() {
    assert_eq!(
        decide(Phase::Idle, Err(SurfaceError::OutOfMemory), pass()),
        (Phase::Idle, FrameAction::Abort(FatalError::OutOfMemory))
    );
}

#[test]
fn no_frame_is_begun_while_one_is_in_flight() {
    assert_eq!(decide(Phase::Rendering, Ok(()), pass()), (Phase::Rendering, FrameAction::Skip));
    assert_eq!(
        decide(Phase::Rendering, Err(SurfaceError::Timeout), pass()),
        (Phase::Rendering, FrameAction::Skip)
    );
    assert_eq!(
        decide(Phase::Rendering, Err(SurfaceError::Outdated), pass()),
        (Phase::Rendering, FrameAction::Skip)
    );
    assert_eq!(
        decide(Phase::Rendering, Err(SurfaceError::Lost), pass()),
        (Phase::Rendering, FrameAction::Skip)
    );
}

#[test]
fn out_of_memory_is_fatal_while_a_frame_is_in_flight_too() {
    assert_eq!(
        decide(Phase::Rendering, Err(SurfaceError::OutOfMemory), pass()),
        (Phase::Rendering, FrameAction::Abort(FatalError::OutOfMemory))
    );
}
