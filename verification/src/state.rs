use vstd::prelude::*;

use crate::color::Channel;
use crate::color::Color;
use crate::color::compute_cursor_color;
use crate::color::cursor_color;
use crate::color::initial_color;
use crate::event::Event;
use crate::surface::SurfaceConfig;

verus! {

/// The two shader pipelines the demo can draw with.
#[derive(Clone, Copy, Debug, PartialEq, Eq, Structural)]
pub enum Pipeline {
    A,
    B,
}

/// Which pipeline a selector value stands for: false selects pipeline A,
/// true selects pipeline B.
pub open spec fn active_spec(selector: bool) -> Pipeline {
    if selector {
        Pipeline::B
    } else {
        Pipeline::A
    }
}

/// Pure pipeline selection from the toggle flag; no side effects.
pub fn active(selector: bool) -> (p: Pipeline)
    ensures
        p == active_spec(selector),
{
    if selector {
        Pipeline::B
    } else {
        Pipeline::A
    }
}

/// The selector after `presses` further presses of the toggle key.
pub open spec fn toggled(selector: bool, presses: nat) -> bool
    decreases presses,
{
    if presses == 0 {
        selector
    } else {
        !toggled(selector, (presses - 1) as nat)
    }
}

/// Law: pressing the toggle key an even number of times returns to the
/// original pipeline, an odd number of times yields the other one.
pub proof fn lemma_toggle_parity(selector: bool, presses: nat)
    ensures
        toggled(selector, presses) == (if presses % 2 == 0 {
            selector
        } else {
            !selector
        }),
    decreases presses,
{
    if presses > 0 {
        lemma_toggle_parity(selector, (presses - 1) as nat);
    }
}

/// Everything a single frame's draw depends on: the clear color, the
/// pipeline to bind, and the fixed non-indexed draw of one instance of a
/// triangle. The application records and submits exactly this.
#[derive(Clone, Copy, Debug, PartialEq, Eq, Structural)]
pub struct RenderPlan {
    pub clear: Color,
    pub pipeline: Pipeline,
    pub vertices: u32,
    pub instances: u32,
}

/// The per-frame mutable state: current clear color, last known window
/// size, and the active-pipeline selector.
#[derive(Clone, Copy, Debug, PartialEq, Eq, Structural)]
pub struct FrameState {
    pub color: Color,
    pub width: u32,
    pub height: u32,
    pub pipeline_b: bool,
}

/// The state after an input event: a cursor move within a window of nonzero
/// size recomputes the clear color; everything else leaves the state alone.
pub open spec fn input_spec(s: FrameState, e: Event) -> FrameState {
    match e {
        Event::CursorMoved { x, y } => {
            if s.width > 0 && s.height > 0 {
                FrameState { color: cursor_color(x, y, s.width, s.height), ..s }
            } else {
                s
            }
        },
        _ => s,
    }
}

/// The draw a frame of the given state performs: clear to the current
/// color, bind the active pipeline, draw 3 vertices and 1 instance.
pub open spec fn render_plan_spec(s: FrameState) -> RenderPlan {
    RenderPlan {
        clear: s.color,
        pipeline: active_spec(s.pipeline_b),
        vertices: 3,
        instances: 1,
    }
}

impl FrameState {
    /// The state is well formed when its color's channels all are.
    pub open spec fn wf(self) -> bool {
        self.color.wf()
    }

    /// The startup state: the initial clear color, pipeline A active, and
    /// the window's initial size.
    pub fn new(width: u32, height: u32) -> (s: FrameState)
        ensures
            s == (FrameState { color: initial_color(), width, height, pipeline_b: false }),
            s.wf(),
    {
        FrameState {
            color: Color {
                r: Channel { num: 1, den: 10 },
                g: Channel { num: 2, den: 10 },
                b: Channel { num: 3, den: 10 },
                a: Channel { num: 1, den: 1 },
            },
            width,
            height,
            pipeline_b: false,
        }
    }

    /// Handles an input event. A cursor move recomputes the clear color
    /// from the normalized cursor position and is reported as consumed;
    /// when the stored size has a zero side the color update is skipped
    /// (nothing is divided by zero) but the event is still consumed. All
    /// other events are left to the caller.
    pub fn handle_input(&mut self, event: &Event) -> (consumed: bool)
        ensures
            *final(self) == input_spec(*old(self), *event),
            consumed == (*event is CursorMoved),
            old(self).wf() ==> final(self).wf(),
    {
        match event {
            Event::CursorMoved { x, y } => {
                if self.width > 0 && self.height > 0 {
                    self.color = compute_cursor_color(*x, *y, self.width, self.height);
                }
                true
            },
            _ => false,
        }
    }

    /// Handles a resize: records the new size and reconfigures the surface
    /// to it, unless the new size has a zero side, in which case nothing
    /// changes at all. Returns whether the surface is to be re-bound.
    pub fn handle_resize(&mut self, config: &mut SurfaceConfig, width: u32, height: u32) -> (applied:
        bool)
        ensures
            width > 0 && height > 0 ==> {
                &&& *final(self) == (FrameState { width, height, ..*old(self) })
                &&& *final(config) == (SurfaceConfig { width, height })
                &&& applied
            },
            !(width > 0 && height > 0) ==> {
                &&& *final(self) == *old(self)
                &&& *final(config) == *old(config)
                &&& !applied
            },
            old(self).wf() ==> final(self).wf(),
    {
        if width > 0 && height > 0 {
            self.width = width;
            self.height = height;
        }
        config.reconfigure(width, height)
    }

    /// Flips the active-pipeline selector; nothing else changes.
    pub fn toggle_pipeline(&mut self)
        ensures
            *final(self) == (FrameState { pipeline_b: !old(self).pipeline_b, ..*old(self) }),
    {
        self.pipeline_b = !self.pipeline_b;
    }

    /// The pipeline the next draw will bind.
    pub fn active_pipeline(&self) -> (p: Pipeline)
        ensures
            p == active_spec(self.pipeline_b),
    {
        active(self.pipeline_b)
    }

    /// Per-frame hook run before each draw; the demo has no per-frame work,
    /// so it does nothing.
    pub fn update(&self) {
    }

    /// The draw the current frame is to perform.
    pub fn render_plan(&self) -> (plan: RenderPlan)
        ensures
            plan == render_plan_spec(*self),
    {
        RenderPlan {
            clear: self.color,
            pipeline: active(self.pipeline_b),
            vertices: 3,
            instances: 1,
        }
    }
}

} // verus!
