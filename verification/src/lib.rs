//! Core logic of a multi-monitor screen-capture overlay client.
//!
//! The library models one physical display per [`outputs::FoamOutput`]:
//! its placement in the virtual desktop, its frozen snapshot, its attached
//! render buffer and its current selection rectangle.  On top of that sit
//! the capture barrier that gathers the per-display asynchronous capture
//! completions, the overlay renderer that dims everything but the selected
//! rectangle, and the interaction state machine that drives freeze, redraw
//! and exit.  All protocol I/O stays outside; the library computes states,
//! buffers and decisions from plain values.

pub mod barrier;
pub mod foam_outputs;
pub mod foamshot;
pub mod notify;
pub mod render;

pub use foam_outputs::SubRect;
