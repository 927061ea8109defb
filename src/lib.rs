//! Decision logic of a free-fly scene viewer: which way the camera is driven by
//! the keys held in a frame, and the session that probes a hardware signing
//! device for its device and app metadata.
use vstd::prelude::*;

pub mod movement;
pub mod probe;

verus! {

} // verus!
