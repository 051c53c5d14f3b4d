use vstd::prelude::*;

verus! {

/// The keys the demo reacts to: Escape exits, Space toggles the active
/// pipeline, everything else is ignored.
#[derive(Clone, Copy, Debug, PartialEq, Eq, Structural)]
pub enum Key {
    Escape,
    Space,
    Other,
}

/// The event vocabulary the driver consumes, as the windowing layer hands it
/// over, reduced to plain values.
#[derive(Clone, Copy, Debug, PartialEq, Eq, Structural)]
pub enum Event {
    /// The window was asked to close.
    CloseRequested,
    /// A key changed state; `pressed` is false for a release.
    KeyboardInput { pressed: bool, key: Key },
    /// The cursor moved to `(x, y)` in window coordinates.
    CursorMoved { x: u32, y: u32 },
    /// The window was resized.
    Resized { width: u32, height: u32 },
    /// The display scale changed, with the window's new size.
    ScaleFactorChanged { width: u32, height: u32 },
    /// The window is to be redrawn.
    RedrawRequested,
    /// All pending events of this cycle have been processed.
    MainEventsCleared,
    /// Any other window event; all are ignored.
    Other,
}

/// The ways acquiring the next presentable frame can fail.
#[derive(Clone, Copy, Debug, PartialEq, Eq, Structural)]
pub enum FrameError {
    /// The surface was lost and must be reconfigured; recoverable.
    Lost,
    /// The surface no longer matches the window; skip this frame.
    Outdated,
    /// No frame became available in time; skip this frame.
    Timeout,
    /// The device is out of memory; fatal.
    OutOfMemory,
}

} // verus!
