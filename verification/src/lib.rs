//! A verified model of the state and control logic of a small real-time
//! rendering demo: a window is cleared to a color derived from the cursor
//! position and a triangle is drawn with one of two pipelines, switchable by
//! a keypress.
//!
//! The library holds everything that can be stated and proved: the clear
//! color as an exact rational, the surface configuration with its zero-size
//! guard, the two-pipeline toggle, the per-event state transition and the
//! recovery policy for frame-acquisition errors. The windowing and GPU
//! calls themselves are input/output and live in the surrounding
//! application, which feeds events in and carries actions out.

pub mod color;
pub mod driver;
pub mod event;
pub mod state;
pub mod surface;
