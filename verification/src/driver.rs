use vstd::prelude::*;

use crate::event::Event;
use crate::event::FrameError;
use crate::event::Key;
use crate::state::FrameState;
use crate::state::RenderPlan;
use crate::state::input_spec;
use crate::state::render_plan_spec;
use crate::state::toggled;
use crate::surface::SurfaceConfig;

verus! {

/// What the application is to do after an event or a render result has been
/// handled. Exactly one action comes out of each decision.
#[derive(Clone, Copy, Debug, PartialEq, Eq, Structural)]
pub enum Action {
    /// Nothing to carry out; keep pumping events.
    Continue,
    /// Leave the event loop; no further rendering or event processing.
    Exit,
    /// Re-bind the real surface to these dimensions.
    Reconfigure { width: u32, height: u32 },
    /// Record and submit exactly this draw.
    Render(RenderPlan),
    /// Ask the window for a redraw, keeping the loop continuously drawing.
    RequestRedraw,
}

/// The frame state after `event`: a cursor move recomputes the clear color,
/// a press of the toggle key flips the selector, a resize or scale change
/// with a nonzero area records the new size; everything else leaves the
/// state alone.
pub open spec fn step_state(s: FrameState, e: Event) -> FrameState {
    match e {
        Event::CursorMoved { .. } => input_spec(s, e),
        Event::KeyboardInput { pressed, key } => {
            if pressed && key is Space {
                FrameState { pipeline_b: !s.pipeline_b, ..s }
            } else {
                s
            }
        },
        Event::Resized { width, height } => {
            if width > 0 && height > 0 {
                FrameState { width, height, ..s }
            } else {
                s
            }
        },
        Event::ScaleFactorChanged { width, height } => {
            if width > 0 && height > 0 {
                FrameState { width, height, ..s }
            } else {
                s
            }
        },
        _ => s,
    }
}

/// The surface configuration after `event`: only a resize or scale change
/// with a nonzero area re-binds the surface.
pub open spec fn step_config(c: SurfaceConfig, e: Event) -> SurfaceConfig {
    match e {
        Event::Resized { width, height } => {
            if width > 0 && height > 0 {
                SurfaceConfig { width, height }
            } else {
                c
            }
        },
        Event::ScaleFactorChanged { width, height } => {
            if width > 0 && height > 0 {
                SurfaceConfig { width, height }
            } else {
                c
            }
        },
        _ => c,
    }
}

/// The action `event` calls for: close request or Escape exits, a nonzero
/// resize re-binds the surface, a redraw request yields the draw of the
/// current state, and the end of a cycle's events asks for the next redraw.
pub open spec fn step_action(s: FrameState, e: Event) -> Action {
    match e {
        Event::CloseRequested => Action::Exit,
        Event::KeyboardInput { pressed, key } => {
            if pressed && key is Escape {
                Action::Exit
            } else {
                Action::Continue
            }
        },
        Event::Resized { width, height } => {
            if width > 0 && height > 0 {
                Action::Reconfigure { width, height }
            } else {
                Action::Continue
            }
        },
        Event::ScaleFactorChanged { width, height } => {
            if width > 0 && height > 0 {
                Action::Reconfigure { width, height }
            } else {
                Action::Continue
            }
        },
        Event::RedrawRequested => Action::Render(render_plan_spec(s)),
        Event::MainEventsCleared => Action::RequestRedraw,
        _ => Action::Continue,
    }
}

/// Dispatches one event: input handling first (a consumed event ends the
/// matter), then the window-level decisions, exactly as `step_state`,
/// `step_config` and `step_action` lay them down.
pub fn step(state: &mut FrameState, config: &mut SurfaceConfig, event: &Event) -> (action: Action)
    ensures
        *final(state) == step_state(*old(state), *event),
        *final(config) == step_config(*old(config), *event),
        action == step_action(*old(state), *event),
        old(state).wf() ==> final(state).wf(),
{
    if state.handle_input(event) {
        return Action::Continue;
    }
    match event {
        Event::CloseRequested => Action::Exit,
        Event::KeyboardInput { pressed, key } => {
            if *pressed && *key == Key::Escape {
                Action::Exit
            } else if *pressed && *key == Key::Space {
                state.toggle_pipeline();
                Action::Continue
            } else {
                Action::Continue
            }
        },
        Event::Resized { width, height } => {
            if state.handle_resize(config, *width, *height) {
                Action::Reconfigure { width: *width, height: *height }
            } else {
                Action::Continue
            }
        },
        Event::ScaleFactorChanged { width, height } => {
            if state.handle_resize(config, *width, *height) {
                Action::Reconfigure { width: *width, height: *height }
            } else {
                Action::Continue
            }
        },
        Event::RedrawRequested => {
            state.update();
            Action::Render(state.render_plan())
        },
        Event::MainEventsCleared => Action::RequestRedraw,
        _ => Action::Continue,
    }
}

/// The surface configuration after the recovery policy has seen a render
/// result: only a lost surface re-binds it, to the last recorded size,
/// and only when that size has no zero side.
pub open spec fn recovery_config(s: FrameState, c: SurfaceConfig, r: Result<(), FrameError>)
    -> SurfaceConfig {
    match r {
        Err(FrameError::Lost) => {
            if s.width > 0 && s.height > 0 {
                SurfaceConfig { width: s.width, height: s.height }
            } else {
                c
            }
        },
        _ => c,
    }
}

/// The action the recovery policy takes on a render result: success and
/// transient failures continue, a lost surface re-binds it, out of memory
/// exits.
pub open spec fn recovery_action(s: FrameState, r: Result<(), FrameError>) -> Action {
    match r {
        Ok(_) => Action::Continue,
        Err(FrameError::Lost) => {
            if s.width > 0 && s.height > 0 {
                Action::Reconfigure { width: s.width, height: s.height }
            } else {
                Action::Continue
            }
        },
        Err(FrameError::OutOfMemory) => Action::Exit,
        Err(FrameError::Outdated) => Action::Continue,
        Err(FrameError::Timeout) => Action::Continue,
    }
}

/// Applies the recovery policy to the result of one render attempt. A lost
/// surface leads to exactly one reconfiguration, with the most recently
/// recorded size, and the frame is skipped: no draw comes out of recovery.
/// Out of memory is fatal and exits the loop; outdated and timed-out
/// frames are dropped and the loop goes on.
pub fn handle_render_result(
    state: &FrameState,
    config: &mut SurfaceConfig,
    result: &Result<(), FrameError>,
) -> (action: Action)
    ensures
        *final(config) == recovery_config(*state, *old(config), *result),
        action == recovery_action(*state, *result),
        !(action is Render),
{
    match result {
        Ok(_) => Action::Continue,
        Err(FrameError::Lost) => {
            if config.reconfigure(state.width, state.height) {
                Action::Reconfigure { width: state.width, height: state.height }
            } else {
                Action::Continue
            }
        },
        Err(FrameError::OutOfMemory) => Action::Exit,
        Err(FrameError::Outdated) => Action::Continue,
        Err(FrameError::Timeout) => Action::Continue,
    }
}

/// Law: a press of the toggle key is exactly one application of the
/// pipeline toggle, and changes nothing else. Together with the toggle's
/// parity law this gives: an even number of presses returns to the
/// original pipeline, an odd number yields the other one.
pub proof fn lemma_space_press_flips_selector(s: FrameState)
    ensures
        step_state(s, Event::KeyboardInput { pressed: true, key: Key::Space }).pipeline_b
            == toggled(s.pipeline_b, 1),
        step_state(s, Event::KeyboardInput { pressed: true, key: Key::Space })
            == (FrameState { pipeline_b: !s.pipeline_b, ..s }),
{
    assert(toggled(s.pipeline_b, 0) == s.pipeline_b);
}

/// Law: the surface configuration always matches the last known window
/// size. If they agree before an event, they agree after it, whichever
/// event comes.
pub proof fn lemma_step_keeps_config_matching(s: FrameState, c: SurfaceConfig, e: Event)
    requires
        c.width == s.width,
        c.height == s.height,
    ensures
        step_config(c, e).width == step_state(s, e).width,
        step_config(c, e).height == step_state(s, e).height,
{
}

/// Law: recovery never breaks the match between the surface configuration
/// and the last known window size either.
pub proof fn lemma_recovery_keeps_config_matching(
    s: FrameState,
    c: SurfaceConfig,
    r: Result<(), FrameError>,
)
    requires
        c.width == s.width,
        c.height == s.height,
    ensures
        recovery_config(s, c, r).width == s.width,
        recovery_config(s, c, r).height == s.height,
{
}

} // verus!
