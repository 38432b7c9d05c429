//! Sound cues. The engine never plays anything: it names the effect that is
//! due and leaves the playing to whoever drives it.

use vstd::prelude::*;

verus! {

/// A sound effect the engine can ask for.
#[derive(Debug, Clone, Copy, PartialEq, Eq, Structural)]
pub enum Sound {
    /// A shot leaves its barrel.
    Fire,
    /// An enemy is hit.
    OnHit,
}

} // verus!
