use vstd::prelude::*;
use crate::material::{MaterialState, PARAM_SCALE, SLOT_COUNT};

verus! {

/// A slider's value changed: `value`, in `PARAM_SCALE` units, for the slot
/// `slot`.
#[derive(Clone, Copy, Debug, PartialEq, Eq, Structural)]
pub struct ParameterChanged {
    pub slot: usize,
    pub value: u32,
}

/// The span of values a slider covers, in `PARAM_SCALE` units.
#[derive(Clone, Copy, Debug, PartialEq, Eq, Structural)]
pub struct SliderRange {
    pub start: u32,
    pub end: u32,
}

impl SliderRange {
    /// The span `[start, end]` is non-empty and lies within `[0, PARAM_SCALE]`.
    pub open spec fn wf(self) -> bool {
        self.start < self.end <= PARAM_SCALE
    }

    /// The whole span `[0.0, 1.0]`, which every slider of the panel uses.
    pub open spec fn spec_unit() -> SliderRange {
        SliderRange { start: 0, end: PARAM_SCALE }
    }

    /// `v` moved into the span.
    pub open spec fn spec_clamp(self, v: u32) -> u32 {
        if v < self.start {
            self.start
        } else if v > self.end {
            self.end
        } else {
            v
        }
    }

    /// Where the thumb stands for the value `v`, as a fraction of the track
    /// in `PARAM_SCALE` units: linear in `v` across the span, rounded down,
    /// and held to the ends outside it.
    pub open spec fn spec_thumb_position(self, v: u32) -> u32 {
        if v <= self.start {
            0
        } else if v >= self.end {
            PARAM_SCALE
        } else {
            ((v - self.start) * PARAM_SCALE / (self.end - self.start)) as u32
        }
    }

    pub fn unit() -> (r: SliderRange)
        ensures
            r == SliderRange::spec_unit(),
            r.wf(),
    {
        SliderRange { start: 0, end: PARAM_SCALE }
    }

    pub fn clamp(&self, v: u32) -> (r: u32)
        ensures
            r == self.spec_clamp(v),
    {
        if v < self.start {
            self.start
        } else if v > self.end {
            self.end
        } else {
            v
        }
    }

    pub fn thumb_position(&self, v: u32) -> (r: u32)
        requires
            self.wf(),
        ensures
            r == self.spec_thumb_position(v),
            r <= PARAM_SCALE,
    {
        if v <= self.start {
            0
        } else if v >= self.end {
            PARAM_SCALE
        } else {
            let num: u64 = (v - self.start) as u64 * PARAM_SCALE as u64;
            let den: u64 = (self.end - self.start) as u64;
            proof {
                assert((v - self.start) * PARAM_SCALE / (self.end - self.start) <= PARAM_SCALE)
                    by (nonlinear_arith)
                    requires
                        self.start < v < self.end,
                ;
            }
            (num / den) as u32
        }
    }
}

/// The thumb's offset in pixels along a track `track_width` pixels wide, for
/// a thumb position given as a fraction in `PARAM_SCALE` units.
pub open spec fn thumb_offset_px(position: u32, track_width: u32) -> u32 {
    (position * track_width / PARAM_SCALE as int) as u32
}

/// One interactive control, bound to one parameter slot.
#[derive(Clone, Copy, Debug)]
pub struct ParameterSlider {
    slot_index: usize,
    value: u32,
    range: SliderRange,
}

impl ParameterSlider {
    /// The slot is one of the material's, the range is the unit span, and
    /// the value lies in it.
    pub open spec fn wf(&self) -> bool {
        &&& self.spec_slot_index() < SLOT_COUNT
        &&& self.spec_range() == SliderRange::spec_unit()
        &&& self.spec_value() <= PARAM_SCALE
    }

    pub closed spec fn spec_slot_index(&self) -> usize {
        self.slot_index
    }

    pub closed spec fn spec_value(&self) -> u32 {
        self.value
    }

    pub closed spec fn spec_range(&self) -> SliderRange {
        self.range
    }

    pub fn slot_index(&self) -> (r: usize)
        ensures
            r == self.spec_slot_index(),
    {
        self.slot_index
    }

    pub fn value(&self) -> (r: u32)
        ensures
            r == self.spec_value(),
    {
        self.value
    }

    pub fn range(&self) -> (r: SliderRange)
        ensures
            r == self.spec_range(),
    {
        self.range
    }

    /// Where the thumb stands, as a fraction of the track in `PARAM_SCALE`
    /// units.
    pub fn thumb_position(&self) -> (r: u32)
        requires
            self.wf(),
        ensures
            r == self.spec_range().spec_thumb_position(self.spec_value()),
            r == self.spec_value(),
    {
        self.range.thumb_position(self.value)
    }

    /// The thumb's offset in pixels along a track `track_width` pixels wide.
    pub fn thumb_offset(&self, track_width: u32) -> (r: u32)
        requires
            self.wf(),
        ensures
            r == thumb_offset_px(self.spec_value(), track_width),
            r <= track_width,
    {
        let p = self.thumb_position();
        proof {
            assert(p * track_width <= PARAM_SCALE * track_width) by (nonlinear_arith)
                requires
                    p <= PARAM_SCALE,
            ;
        }
        let px: u64 = p as u64 * track_width as u64 / PARAM_SCALE as u64;
        proof {
            assert(p * track_width / PARAM_SCALE as int <= track_width) by (nonlinear_arith)
                requires
                    p <= PARAM_SCALE,
            ;
        }
        px as u32
    }
}

/// A slider for slot `index`, at value zero on the unit span.
pub fn create_slider(index: usize) -> (r: ParameterSlider)
    requires
        index < SLOT_COUNT,
    ensures
        r.wf(),
        r.spec_slot_index() == index,
        r.spec_value() == 0,
{
    ParameterSlider { slot_index: index, value: 0, range: SliderRange::unit() }
}

/// The slider values after one change event, for a panel that takes input:
/// the addressed slider moves to the value held to its span, and an event for
/// a slot that does not exist changes nothing.
pub open spec fn apply_change(values: Seq<u32>, c: ParameterChanged) -> Seq<u32> {
    if c.slot < SLOT_COUNT {
        values.update(c.slot as int, SliderRange::spec_unit().spec_clamp(c.value))
    } else {
        values
    }
}

/// The slider values after a tick's change events, applied in order.
pub open spec fn apply_changes(values: Seq<u32>, cs: Seq<ParameterChanged>) -> Seq<u32>
    decreases cs.len(),
{
    if cs.len() == 0 {
        values
    } else {
        apply_change(apply_changes(values, cs.drop_last()), cs.last())
    }
}

/// Abstract value of the control panel.
pub struct PanelView {
    pub visible: bool,
    /// The value of the slider for each slot, in slot order.
    pub values: Seq<u32>,
}

/// The floating panel of four sliders, one per parameter slot, shown or
/// hidden as a whole. A hidden panel takes no input.
#[derive(Debug)]
pub struct ControlPanel {
    sliders: Vec<ParameterSlider>,
    visible: bool,
}

impl View for ControlPanel {
    type V = PanelView;

    closed spec fn view(&self) -> PanelView {
        PanelView {
            visible: self.visible,
            values: Seq::new(self.sliders@.len(), |i: int| self.sliders@[i].spec_value()),
        }
    }
}

impl ControlPanel {
    /// One well-formed slider per slot, the slider at position `i` driving
    /// slot `i`.
    pub closed spec fn wf(&self) -> bool {
        &&& self.sliders@.len() == SLOT_COUNT
        &&& forall|i: int|
            0 <= i < SLOT_COUNT ==> (#[trigger] self.sliders@[i]).wf()
                && self.sliders@[i].spec_slot_index() == i
    }

    /// The slider for slot `i`.
    pub closed spec fn spec_slider(&self, i: int) -> ParameterSlider {
        self.sliders@[i]
    }

    /// Four sliders at zero, one per slot in order, in a visible panel.
    pub fn new() -> (r: ControlPanel)
        ensures
            r.wf(),
            r@.visible,
            r@.values == seq![0u32, 0u32, 0u32, 0u32],
    {
        let mut sliders: Vec<ParameterSlider> = Vec::new();
        let mut i: usize = 0;
        while i < SLOT_COUNT
            invariant
                i <= SLOT_COUNT,
                sliders@.len() == i,
                forall|j: int|
                    0 <= j < i ==> (#[trigger] sliders@[j]).wf() && sliders@[j].spec_slot_index()
                        == j && sliders@[j].spec_value() == 0,
            decreases SLOT_COUNT - i,
        {
            sliders.push(create_slider(i));
            i = i + 1;
        }
        let r = ControlPanel { sliders, visible: true };
        assert(r@.values =~= seq![0u32, 0u32, 0u32, 0u32]);
        r
    }

    pub fn is_visible(&self) -> (r: bool)
        ensures
            r == self@.visible,
    {
        self.visible
    }

    /// Whether the slider for `slot` takes input: it exists and the panel is
    /// shown. Visibility and interactivity go together.
    pub fn is_interactive(&self, slot: usize) -> (r: bool)
        ensures
            r == (self@.visible && slot < SLOT_COUNT),
    {
        self.visible && slot < SLOT_COUNT
    }

    /// The slider for `slot`, if there is one.
    pub fn slider(&self, slot: usize) -> (r: Option<ParameterSlider>)
        requires
            self.wf(),
        ensures
            slot < SLOT_COUNT ==> r == Some(self.spec_slider(slot as int)),
            r matches Some(sl) ==> sl.wf() && sl.spec_slot_index() == slot && sl.spec_value()
                == self@.values[slot as int],
            slot >= SLOT_COUNT ==> r is None,
    {
        if slot < SLOT_COUNT {
            Some(self.sliders[slot])
        } else {
            None
        }
    }

    /// Shows a hidden panel or hides a shown one, sliders and all.
    pub fn toggle_visibility(&mut self)
        requires
            old(self).wf(),
        ensures
            final(self).wf(),
            final(self)@.visible == !old(self)@.visible,
            final(self)@.values == old(self)@.values,
    {
        self.visible = !self.visible;
    }

    /// Flips the panel's visibility when the toggle key was pressed.
    pub fn show_hide_ui(&mut self, toggle_pressed: bool)
        requires
            old(self).wf(),
        ensures
            final(self).wf(),
            final(self)@.visible == (old(self)@.visible != toggle_pressed),
            final(self)@.values == old(self)@.values,
    {
        if toggle_pressed {
            self.toggle_visibility();
        }
    }

    /// Handles one change event: the slider moves to the new value, held to
    /// its span, and the same value goes into the material's slot. A hidden
    /// panel, or a slot that does not exist, ignores the event. Returns
    /// whether it was applied.
    pub fn on_update_slider(&mut self, material: &mut MaterialState, change: ParameterChanged) -> (applied: bool)
        requires
            old(self).wf(),
            old(material).wf(),
        ensures
            applied == (old(self)@.visible && change.slot < SLOT_COUNT),
            final(self).wf(),
            final(material).wf(),
            final(self)@.visible == old(self)@.visible,
            applied ==> final(self)@.values == apply_change(old(self)@.values, change),
            !applied ==> final(self)@.values == old(self)@.values,
            applied ==> final(material)@ == old(material)@.with_parameter(
                change.slot as int,
                SliderRange::spec_unit().spec_clamp(change.value),
            ),
            !applied ==> final(material)@ == old(material)@,
            applied ==> final(material).spec_dirty(),
            !applied ==> final(material).spec_dirty() == old(material).spec_dirty(),
    {
        if !self.visible || change.slot >= SLOT_COUNT {
            return false;
        }
        let slider = self.sliders[change.slot];
        let value = slider.range.clamp(change.value);
        self.sliders.set(change.slot, ParameterSlider { value, ..slider });
        material.set_parameter(change.slot, value);
        assert(self@.values =~= apply_change(old(self)@.values, change));
        true
    }

    /// Delivers a tick's change events in order. Each one that the panel
    /// takes sets the slider and the material slot alike, so a panel and a
    /// material that agreed before agree after.
    pub fn drain_changes(&mut self, material: &mut MaterialState, changes: &Vec<ParameterChanged>)
        requires
            old(self).wf(),
            old(material).wf(),
        ensures
            final(self).wf(),
            final(material).wf(),
            final(self)@.visible == old(self)@.visible,
            final(self)@.values == if old(self)@.visible {
                apply_changes(old(self)@.values, changes@)
            } else {
                old(self)@.values
            },
            final(material)@.time_ms == old(material)@.time_ms,
            final(material)@.resolution == old(material)@.resolution,
            final(material)@.parameters == if old(self)@.visible {
                apply_changes(old(material)@.parameters, changes@)
            } else {
                old(material)@.parameters
            },
            old(material).spec_dirty() ==> final(material).spec_dirty(),
    {
        let mut i: usize = 0;
        while i < changes.len()
            invariant
                i <= changes@.len(),
                self.wf(),
                material.wf(),
                self@.visible == old(self)@.visible,
                self@.values == if old(self)@.visible {
                    apply_changes(old(self)@.values, changes@.take(i as int))
                } else {
                    old(self)@.values
                },
                material@.time_ms == old(material)@.time_ms,
                material@.resolution == old(material)@.resolution,
                material@.parameters == if old(self)@.visible {
                    apply_changes(old(material)@.parameters, changes@.take(i as int))
                } else {
                    old(material)@.parameters
                },
                old(material).spec_dirty() ==> material.spec_dirty(),
            decreases changes@.len() - i,
        {
            assert(changes@.take(i + 1).drop_last() =~= changes@.take(i as int));
            let c = changes[i];
            let _ = self.on_update_slider(material, c);
            proof {
                if old(self)@.visible && c.slot < SLOT_COUNT {
                    let before = apply_changes(old(material)@.parameters, changes@.take(i as int));
                    assert(material@.parameters =~= apply_change(before, c));
                }
            }
            i = i + 1;
        }
        assert(changes@.take(changes@.len() as int) =~= changes@);
    }
}

} // verus!
