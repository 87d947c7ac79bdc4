//! A short haptic tap when a setting lands on a new value.
//!
//! Desktop Linux and the phone builds have no haptic API that GTK exposes, so here the tap is a
//! no-op. A platform that can drive a haptic actuator does so around this call, at its edge.

use vstd::prelude::*;

verus! {

/// Signals that a setting moved to a new step. Without a haptic device this does nothing.
pub fn tap() {
}

} // verus!
