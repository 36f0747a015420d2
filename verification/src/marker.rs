//! Identifiers of the markers the debug overlay can draw and pick.

use vstd::prelude::*;

verus! {

/// Which scene element a debug marker stands for.  The payload is the
/// element's slot in its owning collection; particles carry the
/// emitter and the particle slot.
#[derive(Clone, Copy, PartialEq, Eq, Structural, Debug)]
pub enum MarkerIdentifier {
    Object(u32),
    LightSource(u32),
    SoundSource(u32),
    EffectSource(u32),
    Particle(u16, u16),
    Entity(u32),
    Shadow(u32),
}

} // verus!
