use vstd::prelude::*;

verus! {

/// Number of user-adjustable parameter slots.
pub const SLOT_COUNT: usize = 4;

/// Fixed-point scale of a parameter: `PARAM_SCALE` stands for 1.0, so a
/// parameter holds a fraction of `[0.0, 1.0]` in steps of one ten-thousandth.
pub const PARAM_SCALE: u32 = 10000;

/// Viewport size in whole pixels. Either side may be zero.
#[derive(Clone, Copy, Debug, PartialEq, Eq, Structural)]
pub struct Resolution {
    pub width: u32,
    pub height: u32,
}

/// The full uniform payload as the renderer reads it.
#[derive(Clone, Copy, Debug)]
pub struct MaterialSnapshot {
    /// Elapsed time since start, in milliseconds.
    pub time_ms: u64,
    pub resolution: Resolution,
    /// One fixed-point value per slot, each at most `PARAM_SCALE`.
    pub parameters: [u32; 4],
}

/// Abstract value of the uniform payload.
pub struct MaterialView {
    pub time_ms: u64,
    pub resolution: Resolution,
    pub parameters: Seq<u32>,
}

impl MaterialView {
    /// Every slot is defined and holds a value in `[0, PARAM_SCALE]`.
    pub open spec fn wf(self) -> bool {
        &&& self.parameters.len() == SLOT_COUNT
        &&& forall|i: int| 0 <= i < SLOT_COUNT ==> #[trigger] self.parameters[i] <= PARAM_SCALE
    }

    pub open spec fn with_time(self, t: u64) -> MaterialView {
        MaterialView { time_ms: t, ..self }
    }

    pub open spec fn with_resolution(self, r: Resolution) -> MaterialView {
        MaterialView { resolution: r, ..self }
    }

    /// The payload with slot `index` set to `value`; unchanged for an index
    /// that names no slot.
    pub open spec fn with_parameter(self, index: int, value: u32) -> MaterialView {
        if 0 <= index < SLOT_COUNT {
            MaterialView { parameters: self.parameters.update(index, value), ..self }
        } else {
            self
        }
    }
}

impl MaterialSnapshot {
    /// This snapshot shows exactly the payload `m`.
    pub open spec fn shows(self, m: MaterialView) -> bool {
        &&& self.time_ms == m.time_ms
        &&& self.resolution == m.resolution
        &&& self.parameters@ == m.parameters
    }
}

/// The live uniform payload bound to the draw surface's material.
///
/// Every setter that changes something marks the payload dirty, so that the
/// renderer knows to upload it again.
#[derive(Debug)]
pub struct MaterialState {
    time_ms: u64,
    resolution: Resolution,
    parameters: [u32; 4],
    dirty: bool,
}

impl View for MaterialState {
    type V = MaterialView;

    closed spec fn view(&self) -> MaterialView {
        MaterialView {
            time_ms: self.time_ms,
            resolution: self.resolution,
            parameters: self.parameters@,
        }
    }
}

impl MaterialState {
    pub open spec fn wf(&self) -> bool {
        self@.wf()
    }

    /// Whether the payload changed since the renderer last took it.
    pub closed spec fn spec_dirty(&self) -> bool {
        self.dirty
    }

    /// A fresh payload for a surface of the given size: time zero, every
    /// parameter zero, and dirty so that it is uploaded once.
    pub fn new(resolution: Resolution) -> (r: MaterialState)
        ensures
            r.wf(),
            r@.time_ms == 0,
            r@.resolution == resolution,
            r@.parameters == seq![0u32, 0u32, 0u32, 0u32],
            r.spec_dirty(),
    {
        let r = MaterialState { time_ms: 0, resolution, parameters: [0u32; 4], dirty: true };
        assert(r.parameters@ =~= seq![0u32, 0u32, 0u32, 0u32]);
        r
    }

    /// Writes the elapsed time.
    pub fn set_time(&mut self, t: u64)
        requires
            old(self).wf(),
        ensures
            final(self).wf(),
            final(self)@ == old(self)@.with_time(t),
            final(self).spec_dirty(),
    {
        self.time_ms = t;
        self.dirty = true;
    }

    /// Writes the viewport size.
    pub fn set_resolution(&mut self, width: u32, height: u32)
        requires
            old(self).wf(),
        ensures
            final(self).wf(),
            final(self)@ == old(self)@.with_resolution(Resolution { width, height }),
            final(self).spec_dirty(),
    {
        self.resolution = Resolution { width, height };
        self.dirty = true;
    }

    /// Writes one parameter slot. An index that names no slot is ignored and
    /// leaves the payload, dirty mark included, as it was.
    pub fn set_parameter(&mut self, index: usize, value: u32)
        requires
            old(self).wf(),
            value <= PARAM_SCALE,
        ensures
            final(self).wf(),
            final(self)@ == old(self)@.with_parameter(index as int, value),
            final(self).spec_dirty() == (index < SLOT_COUNT || old(self).spec_dirty()),
    {
        if index < SLOT_COUNT {
            self.parameters[index] = value;
            self.dirty = true;
        }
    }

    /// The current payload.
    pub fn snapshot(&self) -> (r: MaterialSnapshot)
        ensures
            r.shows(self@),
    {
        MaterialSnapshot {
            time_ms: self.time_ms,
            resolution: self.resolution,
            parameters: self.parameters,
        }
    }

    pub fn time_ms(&self) -> (r: u64)
        ensures
            r == self@.time_ms,
    {
        self.time_ms
    }

    pub fn resolution(&self) -> (r: Resolution)
        ensures
            r == self@.resolution,
    {
        self.resolution
    }

    /// The value in slot `index`, or `None` for an index that names no slot.
    pub fn parameter(&self, index: usize) -> (r: Option<u32>)
        ensures
            index < SLOT_COUNT ==> r == Some(self@.parameters[index as int]),
            index >= SLOT_COUNT ==> r is None,
    {
        if index < SLOT_COUNT {
            Some(self.parameters[index])
        } else {
            None
        }
    }

    pub fn is_dirty(&self) -> (r: bool)
        ensures
            r == self.spec_dirty(),
    {
        self.dirty
    }

    /// Hands the payload to the renderer for upload and clears the dirty mark.
    pub fn take_for_upload(&mut self) -> (r: MaterialSnapshot)
        ensures
            final(self)@ == old(self)@,
            !final(self).spec_dirty(),
            r.shows(old(self)@),
    {
        self.dirty = false;
        self.snapshot()
    }
}

/// Setting a slot and then reading the snapshot shows the new value in that
/// slot, and every other slot, the time and the resolution as they were.
pub proof fn set_parameter_then_snapshot(m: MaterialView, index: int, value: u32)
    requires
        m.wf(),
        0 <= index < SLOT_COUNT,
        value <= PARAM_SCALE,
    ensures
        m.with_parameter(index, value).wf(),
        m.with_parameter(index, value).parameters[index] == value,
        forall|j: int|
            0 <= j < SLOT_COUNT && j != index ==> #[trigger] m.with_parameter(
                index,
                value,
            ).parameters[j] == m.parameters[j],
        m.with_parameter(index, value).time_ms == m.time_ms,
        m.with_parameter(index, value).resolution == m.resolution,
{
}

/// Setting a slot through an index that names no slot changes nothing.
pub proof fn set_parameter_out_of_range_is_noop(m: MaterialView, index: int, value: u32)
    requires
        !(0 <= index < SLOT_COUNT),
    ensures
        m.with_parameter(index, value) == m,
{
}

/// Setting the same time twice gives the same payload as setting it once.
pub proof fn set_time_is_idempotent(m: MaterialView, t: u64)
    ensures
        m.with_time(t).with_time(t) == m.with_time(t),
{
}

} // verus!
