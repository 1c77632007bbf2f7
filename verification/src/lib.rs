//! Bridges interactive on-screen controls (buttons, knobs, draggable numeric
//! fields) to a live audio-processing graph, and owns the lifecycle of the
//! realtime audio stream itself.
//!
//! The core pieces are:
//! - [`slot`]: the single-value, newest-wins mailbox that carries a control's
//!   latest value from the UI context into the audio graph's per-tick
//!   evaluation,
//! - [`channel`]: the cross-thread message stream that feeds values into the
//!   running graph as a parameter-source node,
//! - [`widgets`]: the controls themselves and how interaction events become
//!   slot writes,
//! - [`builder`]: wiring a control's slots into the graph as parameter nodes,
//! - [`runtime`]: the two-state start/stop machine for the realtime stream.

pub mod builder;
pub mod channel;
pub mod runtime;
pub mod slot;
pub mod widgets;

use vstd::prelude::*;

verus! {

/// The fixed-point resolution for normalized control positions: a position in
/// the closed unit interval is carried as an integer count of these units, so
/// `0` is the low end of the range and `NORMAL_UNIT` the high end.
pub const NORMAL_UNIT: i64 = 1_000_000;

} // verus!
