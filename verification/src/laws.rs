//! What holds of the render loop over every input and every run of calls.

use crate::error::{Severity, SurfaceError};
use crate::frame::{FrameAction, Phase};
use crate::input::{Event, ExitKey, KeyboardInput};
use crate::state::{Command, StateView};
use crate::surface::SurfaceConfigView;
use vstd::prelude::*;

verus! {

/// One call of `draw`: when it began and what the surface answered.
pub struct Draw {
    pub now_nanos: u64,
    pub acquired: Result<(), SurfaceError>,
}

/// The command buffers submitted over a run of draws from `state`, where
/// every frame that is handed out is presented before the next draw.
pub open spec fn submitted(state: StateView, draws: Seq<Draw>) -> nat
    decreases draws.len(),
{
    if draws.len() == 0 {
        0
    } else {
        let step = state.drawn(draws[0].now_nanos, draws[0].acquired);
        step.1.submissions() + submitted(step.0.presented(), draws.drop_first())
    }
}

/// The command buffers handed out over a run of draws from `state` during
/// which no frame is presented.
pub open spec fn handed_out(state: StateView, draws: Seq<Draw>) -> nat
    decreases draws.len(),
{
    if draws.len() == 0 {
        0
    } else {
        let step = state.drawn(draws[0].now_nanos, draws[0].acquired);
        step.1.submissions() + handed_out(step.0, draws.drop_first())
    }
}

/// The draws of a run for which the surface handed out an image.
pub open spec fn acquired_images(draws: Seq<Draw>) -> nat
    decreases draws.len(),
{
    if draws.len() == 0 {
        0
    } else {
        (if draws[0].acquired is Ok {
            1nat
        } else {
            0nat
        }) + acquired_images(draws.drop_first())
    }
}

/// The requests for the exit that a run of keyboard events gives rise to,
/// for an exit key that starts out as `key` says.
pub open spec fn exit_signals(key: ExitKey, inputs: Seq<KeyboardInput>) -> nat
    decreases inputs.len(),
{
    if inputs.len() == 0 {
        0
    } else {
        (if key.spec_signals(inputs[0]) {
            1nat
        } else {
            0nat
        }) + exit_signals(key.spec_after(inputs[0]), inputs.drop_first())
    }
}

/// The events of a run that report the exit key as down.
pub open spec fn exit_presses(inputs: Seq<KeyboardInput>) -> nat
    decreases inputs.len(),
{
    if inputs.len() == 0 {
        0
    } else {
        (if inputs[0].is_exit_press() {
            1nat
        } else {
            0nat
        }) + exit_presses(inputs.drop_first())
    }
}

/// A resize to a size without a zero dimension stores exactly that size,
/// keeps format, present mode and alpha mode, and leaves a surface that
/// covers at least one pixel.
pub proof fn law_resize_takes_size(config: SurfaceConfigView, width: u32, height: u32)
    requires
        width != 0,
        height != 0,
    ensures
        config.resized(width, height).width == width,
        config.resized(width, height).height == height,
        config.resized(width, height).format == config.format,
        config.resized(width, height).present_mode == config.present_mode,
        config.resized(width, height).alpha_mode == config.alpha_mode,
        config.resized(width, height).wf(),
{
}

/// A resize to a size with a zero dimension changes nothing.
pub proof fn law_zero_resize_is_ignored(config: SurfaceConfigView, width: u32, height: u32)
    requires
        width == 0 || height == 0,
    ensures
        config.resized(width, height) == config,
{
}

/// Resizing twice to the same size is resizing once, and resizing a
/// configured surface to the size it has changes nothing.
pub proof fn law_resize_is_idempotent(config: SurfaceConfigView, width: u32, height: u32)
    ensures
        config.resized(width, height).resized(width, height) == config.resized(width, height),
        config.wf() ==> config.resized(config.width, config.height) == config,
{
}

/// Every transition keeps the state well formed: the surface never has a
/// zero dimension, and the pipeline keeps writing the surface's format.
pub proof fn law_transitions_keep_wf(
    state: StateView,
    width: u32,
    height: u32,
    draw: Draw,
    event: Event,
)
    requires
        state.wf(),
    ensures
        state.resized(width, height).wf(),
        state.drawn(draw.now_nanos, draw.acquired).0.wf(),
        state.presented().wf(),
        state.handled(event).0.wf(),
{
}

/// The state keeps the graphics context and the window it was set up with:
/// no transition replaces either.
pub proof fn law_context_is_kept(
    state: StateView,
    width: u32,
    height: u32,
    draw: Draw,
    event: Event,
)
    ensures
        state.resized(width, height).context == state.context,
        state.drawn(draw.now_nanos, draw.acquired).0.context == state.context,
        state.presented().context == state.context,
        state.handled(event).0.context == state.context,
        state.resized(width, height).window == state.window,
        state.drawn(draw.now_nanos, draw.acquired).0.window == state.window,
        state.presented().window == state.window,
        state.handled(event).0.window == state.window,
{
}

/// A draw hands out at most one pass, and exactly one where the driver was
/// idle and the surface handed out an image. It leaves the driver rendering
/// exactly where a frame is in flight afterwards.
pub proof fn law_draw_submits_at_most_once(state: StateView, draw: Draw)
    ensures
        state.drawn(draw.now_nanos, draw.acquired).1.submissions() <= 1,
        state.drawn(draw.now_nanos, draw.acquired).1.submissions() == 1 <==> state.phase
            == Phase::Idle && draw.acquired is Ok,
        state.drawn(draw.now_nanos, draw.acquired).0.phase == Phase::Rendering <==> state.phase
            == Phase::Rendering || draw.acquired is Ok,
{
}

/// Over any run of draws in which each frame is presented before the next
/// draw, no more command buffers are submitted than there were draws; from
/// an idle driver there is exactly one for each image the surface handed out.
pub proof fn law_one_submission_per_draw(state: StateView, draws: Seq<Draw>)
    ensures
        submitted(state, draws) <= draws.len(),
        state.phase == Phase::Idle ==> submitted(state, draws) == acquired_images(draws),
    decreases draws.len(),
{
    if draws.len() > 0 {
        let step = state.drawn(draws[0].now_nanos, draws[0].acquired);
        law_one_submission_per_draw(step.0.presented(), draws.drop_first());
    }
}

/// However often `draw` is called, at most one frame is in flight: as long as
/// none is presented, a single pass is handed out at most, and none at all
/// while the driver is rendering.
pub proof fn law_one_frame_in_flight(state: StateView, draws: Seq<Draw>)
    ensures
        handed_out(state, draws) <= 1,
        state.phase == Phase::Rendering ==> handed_out(state, draws) == 0,
    decreases draws.len(),
{
    if draws.len() > 0 {
        let step = state.drawn(draws[0].now_nanos, draws[0].acquired);
        law_one_frame_in_flight(step.0, draws.drop_first());
    }
}

/// An outdated or lost surface costs one frame and nothing else: the draw
/// asks for the surface to be configured again, with the size it had, hands
/// out no pass and leaves the driver idle, so that the next draw for which an
/// image is acquired renders.
pub proof fn law_surface_loss_is_recovered(
    state: StateView,
    now_nanos: u64,
    loss: SurfaceError,
    next_nanos: u64,
)
    requires
        state.phase == Phase::Idle,
        loss == SurfaceError::Outdated || loss == SurfaceError::Lost,
    ensures
        state.drawn(now_nanos, Err(loss)).1 == FrameAction::Reconfigure,
        state.drawn(now_nanos, Err(loss)).0.config == state.config,
        state.drawn(now_nanos, Err(loss)).0.phase == Phase::Idle,
        state.drawn(now_nanos, Err(loss)).0.drawn(next_nanos, Ok(())).1 == FrameAction::Render(
            state.resources.spec_render_pass(),
        ),
{
}

/// Only a fatal error of the surface stops the process; a transient one never
/// does, and never reaches past the draw as anything but a frame not drawn or
/// a surface to configure again.
pub proof fn law_only_fatal_errors_abort(state: StateView, now_nanos: u64, error: SurfaceError)
    ensures
        state.drawn(now_nanos, Err(error)).1 is Abort <==> error.spec_severity()
            == Severity::Fatal,
        error.spec_severity() == Severity::Transient ==> state.drawn(now_nanos, Err(error)).1
            == FrameAction::Skip || state.drawn(now_nanos, Err(error)).1
            == FrameAction::Reconfigure,
        state.drawn(now_nanos, Err(error)).1.submissions() == 0,
{
}

/// After a resize to a size without a zero dimension the surface has that
/// size, and an idle driver renders to the next image that is acquired.
pub proof fn law_resize_then_draw(state: StateView, width: u32, height: u32, now_nanos: u64)
    requires
        state.wf(),
        state.phase == Phase::Idle,
        width != 0,
        height != 0,
    ensures
        state.resized(width, height).config.width == width,
        state.resized(width, height).config.height == height,
        state.resized(width, height).wf(),
        state.resized(width, height).drawn(now_nanos, Ok(())).1 == FrameAction::Render(
            state.resources.spec_render_pass(),
        ),
        state.resized(width, height).drawn(now_nanos, Ok(())).0.config == state.config.resized(
            width,
            height,
        ),
{
}

/// The frame counters move on with every draw, whatever the surface
/// answered, and nothing else of the state depends on them.
pub proof fn law_counters_always_move(state: StateView, draw: Draw)
    ensures
        state.drawn(draw.now_nanos, draw.acquired).0.frame.last_frame_nanos == draw.now_nanos,
        draw.now_nanos >= state.frame.last_frame_nanos ==> state.drawn(
            draw.now_nanos,
            draw.acquired,
        ).0.frame.frame_nanos == draw.now_nanos - state.frame.last_frame_nanos,
        state.drawn(draw.now_nanos, draw.acquired).0.config == state.config,
        state.drawn(draw.now_nanos, draw.acquired).0.resources == state.resources,
{
}

/// A run of keyboard events never asks for the exit more often than it
/// reports the exit key as down.
pub proof fn law_exit_at_most_once_per_press(key: ExitKey, inputs: Seq<KeyboardInput>)
    ensures
        exit_signals(key, inputs) <= exit_presses(inputs),
    decreases inputs.len(),
{
    if inputs.len() > 0 {
        law_exit_at_most_once_per_press(key.spec_after(inputs[0]), inputs.drop_first());
    }
}

/// While the exit key stays down, its repeated presses ask for nothing.
pub proof fn law_held_key_is_silent(presses: Seq<KeyboardInput>)
    requires
        forall|i: int| 0 <= i < presses.len() ==> (#[trigger] presses[i]).is_exit_press(),
    ensures
        exit_signals(ExitKey { down: true }, presses) == 0,
    decreases presses.len(),
{
    if presses.len() > 0 {
        let rest = presses.drop_first();
        assert forall|i: int| 0 <= i < rest.len() implies (#[trigger] rest[i]).is_exit_press() by {
            assert(rest[i] == presses[i + 1]);
        }
        law_held_key_is_silent(rest);
    }
}

/// Pressing the exit key, holding it for any number of repeats and letting
/// it go asks for the exit exactly once: on the first press, not on a repeat
/// and not on the release.
pub proof fn law_press_and_release_exits_once(
    press: KeyboardInput,
    repeats: Seq<KeyboardInput>,
    release: KeyboardInput,
)
    requires
        press.is_exit_press(),
        forall|i: int| 0 <= i < repeats.len() ==> (#[trigger] repeats[i]).is_exit_press(),
        release.is_exit_release(),
    ensures
        exit_signals(ExitKey { down: false }, seq![press] + repeats + seq![release]) == 1,
        exit_signals(ExitKey { down: false }, seq![press, release]) == 1,
        (ExitKey { down: false }).spec_signals(press),
        !(ExitKey { down: true }).spec_signals(release),
{
    let up = ExitKey { down: false };
    let down = ExitKey { down: true };
    let held = repeats + seq![release];
    let run = seq![press] + repeats + seq![release];
    assert(run.drop_first() =~= held);
    assert(run[0] == press);
    lemma_silent_until_release(repeats, release);
    assert(exit_signals(up, run) == 1 + exit_signals(down, held));
    let short = seq![press, release];
    assert(short.drop_first() =~= seq![release]);
    assert(seq![release].drop_first() =~= Seq::<KeyboardInput>::empty());
    assert(exit_signals(down, seq![release]) == 0 + exit_signals(
        ExitKey { down: false },
        Seq::<KeyboardInput>::empty(),
    ));
    assert(exit_signals(up, short) == 1 + exit_signals(down, seq![release]));
}

/// From a key that is down, repeats and the release that ends them ask for
/// nothing.
proof fn lemma_silent_until_release(repeats: Seq<KeyboardInput>, release: KeyboardInput)
    requires
        forall|i: int| 0 <= i < repeats.len() ==> (#[trigger] repeats[i]).is_exit_press(),
        release.is_exit_release(),
    ensures
        exit_signals(ExitKey { down: true }, repeats + seq![release]) == 0,
    decreases repeats.len(),
{
    let down = ExitKey { down: true };
    let run = repeats + seq![release];
    if repeats.len() == 0 {
        assert(run =~= seq![release]);
        assert(run.drop_first() =~= Seq::<KeyboardInput>::empty());
        assert(exit_signals(down, run) == 0 + exit_signals(
            down.spec_after(release),
            run.drop_first(),
        ));
    } else {
        let rest = repeats.drop_first();
        assert forall|i: int| 0 <= i < rest.len() implies (#[trigger] rest[i]).is_exit_press() by {
            assert(rest[i] == repeats[i + 1]);
        }
        assert(run.drop_first() =~= rest + seq![release]);
        assert(run[0] == repeats[0]);
        lemma_silent_until_release(rest, release);
    }
}

/// Events about another window change nothing and ask for nothing; closing
/// the own window asks for the exit; a key event of the own window asks for
/// it exactly when the exit key goes down from up.
pub proof fn law_events_are_filtered(state: StateView, event: Event)
    ensures
        event.window() is Some && event.window() != Some(state.window) ==> state.handled(event) == (
            state,
            Command::Nothing,
        ),
        event == Event::Other ==> state.handled(event) == (state, Command::Nothing),
        event == Event::CloseRequested(state.window) ==> state.handled(event).1 == Command::Exit,
        event == Event::RedrawRequested(state.window) ==> state.handled(event) == (
            state,
            Command::Draw,
        ),
        forall|input: KeyboardInput|
            event == Event::KeyboardInput(state.window, input) ==> (state.handled(event).1
                == Command::Exit <==> input.is_exit_press() && !state.exit_key.down),
        forall|width: u32, height: u32|
            event == Event::Resized(state.window, width, height) ==> state.handled(event).0
                == state.resized(width, height),
{
}

} // verus!
