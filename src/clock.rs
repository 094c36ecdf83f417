use vstd::prelude::*;
use crate::material::MaterialState;

verus! {

/// The time the clock writes: the elapsed time read this frame, except that
/// it never goes back below what the material already shows.
pub open spec fn clock_time(current: u64, elapsed_ms: u64) -> u64 {
    if elapsed_ms >= current {
        elapsed_ms
    } else {
        current
    }
}

/// Advances the time uniform once per frame from the elapsed wall-clock time
/// since start. The time shown never decreases and never resets.
pub fn update_time(material: &mut MaterialState, elapsed_ms: u64)
    requires
        old(material).wf(),
    ensures
        final(material).wf(),
        final(material)@ == old(material)@.with_time(clock_time(old(material)@.time_ms, elapsed_ms)),
        final(material)@.time_ms >= old(material)@.time_ms,
        final(material).spec_dirty(),
{
    let current = material.time_ms();
    let t = if elapsed_ms >= current {
        elapsed_ms
    } else {
        current
    };
    material.set_time(t);
}

} // verus!
