use vstd::prelude::*;
use crate::clock::{clock_time, update_time};
use crate::material::{MaterialSnapshot, MaterialState, MaterialView, Resolution};
use crate::panel::{apply_changes, ControlPanel, ParameterChanged, PanelView};
use crate::shader::ShaderSpec;
use crate::surface::{react_to_resize, surface_after, ResizeEvent, SurfaceGeometry};

verus! {

/// What the toolkit queued for one frame.
#[derive(Debug)]
pub struct FrameEvents {
    /// Elapsed wall-clock time since start, in milliseconds.
    pub elapsed_ms: u64,
    /// Resize notifications, oldest first.
    pub resizes: Vec<ResizeEvent>,
    /// Slider change events, oldest first.
    pub changes: Vec<ParameterChanged>,
    /// Whether the visibility toggle key was pressed.
    pub toggle_pressed: bool,
}

/// The resolution that the resize check of a tick leaves in the material.
pub open spec fn resolution_after(current: Resolution, events: Seq<ResizeEvent>) -> Resolution {
    if events.len() == 0 {
        current
    } else {
        Resolution { width: events.last().width, height: events.last().height }
    }
}

/// The material after one tick: time first, then resize, then the slider
/// changes, which a hidden panel does not take.
pub open spec fn material_after_tick(
    m: MaterialView,
    panel_visible: bool,
    elapsed_ms: u64,
    resizes: Seq<ResizeEvent>,
    changes: Seq<ParameterChanged>,
) -> MaterialView {
    MaterialView {
        time_ms: clock_time(m.time_ms, elapsed_ms),
        resolution: resolution_after(m.resolution, resizes),
        parameters: if panel_visible {
            apply_changes(m.parameters, changes)
        } else {
            m.parameters
        },
    }
}

/// The panel after one tick: the slider changes, then the visibility toggle.
pub open spec fn panel_after_tick(
    p: PanelView,
    changes: Seq<ParameterChanged>,
    toggle_pressed: bool,
) -> PanelView {
    PanelView {
        visible: p.visible != toggle_pressed,
        values: if p.visible {
            apply_changes(p.values, changes)
        } else {
            p.values
        },
    }
}

/// The whole live state of one preview surface: its resolved shader, the
/// material, the quad and the control panel.
#[derive(Debug)]
pub struct Viewer {
    shader: ShaderSpec,
    material: MaterialState,
    surface: SurfaceGeometry,
    panel: ControlPanel,
}

impl Viewer {
    /// The parts are well formed, the quad covers the resolution that the
    /// material shows, and each slider shows the value of its slot.
    pub closed spec fn wf(&self) -> bool {
        &&& self.material.wf()
        &&& self.panel.wf()
        &&& self.surface.width == self.material@.resolution.width
        &&& self.surface.height == self.material@.resolution.height
        &&& self.panel@.values == self.material@.parameters
    }

    pub closed spec fn spec_shader(&self) -> ShaderSpec {
        self.shader
    }

    pub closed spec fn spec_material(&self) -> MaterialView {
        self.material@
    }

    pub closed spec fn spec_surface(&self) -> SurfaceGeometry {
        self.surface
    }

    pub closed spec fn spec_panel(&self) -> PanelView {
        self.panel@
    }

    pub closed spec fn spec_needs_upload(&self) -> bool {
        self.material.spec_dirty()
    }

    /// Sets up a surface of `width` by `height` pixels: a quad of that size,
    /// a material at time zero with every parameter zero, and a visible panel
    /// with every slider at zero.
    pub fn new(shader: ShaderSpec, width: u32, height: u32) -> (r: Viewer)
        ensures
            r.wf(),
            r.spec_shader() == shader,
            r.spec_surface() == (SurfaceGeometry { width, height }),
            r.spec_material().time_ms == 0,
            r.spec_material().resolution == (Resolution { width, height }),
            r.spec_material().parameters == seq![0u32, 0u32, 0u32, 0u32],
            r.spec_panel().visible,
            r.spec_needs_upload(),
    {
        let material = MaterialState::new(Resolution { width, height });
        let surface = SurfaceGeometry::new(width, height);
        let panel = ControlPanel::new();
        Viewer { shader, material, surface, panel }
    }

    /// Runs one frame's updates in their fixed order: the clock, the resize
    /// check, the slider changes, the visibility toggle. Every change of the
    /// tick is in the material before the renderer reads it.
    pub fn tick(&mut self, events: &FrameEvents)
        requires
            old(self).wf(),
        ensures
            final(self).wf(),
            final(self).spec_shader() == old(self).spec_shader(),
            final(self).spec_material() == material_after_tick(
                old(self).spec_material(),
                old(self).spec_panel().visible,
                events.elapsed_ms,
                events.resizes@,
                events.changes@,
            ),
            final(self).spec_surface() == surface_after(old(self).spec_surface(), events.resizes@),
            final(self).spec_panel() == panel_after_tick(
                old(self).spec_panel(),
                events.changes@,
                events.toggle_pressed,
            ),
            final(self).spec_needs_upload(),
    {
        update_time(&mut self.material, events.elapsed_ms);
        let _ = react_to_resize(&mut self.surface, &mut self.material, &events.resizes);
        self.panel.drain_changes(&mut self.material, &events.changes);
        self.panel.show_hide_ui(events.toggle_pressed);
        assert(self.material@ == material_after_tick(
            old(self).spec_material(),
            old(self).spec_panel().visible,
            events.elapsed_ms,
            events.resizes@,
            events.changes@,
        ));
    }

    pub fn shader(&self) -> (r: &ShaderSpec)
        ensures
            *r == self.spec_shader(),
    {
        &self.shader
    }

    pub fn surface(&self) -> (r: SurfaceGeometry)
        ensures
            r == self.spec_surface(),
    {
        self.surface
    }

    pub fn panel(&self) -> (r: &ControlPanel)
        ensures
            r@ == self.spec_panel(),
    {
        &self.panel
    }

    pub fn snapshot(&self) -> (r: MaterialSnapshot)
        ensures
            r.shows(self.spec_material()),
    {
        self.material.snapshot()
    }

    /// Hands the payload to the renderer, clearing its dirty mark.
    pub fn take_for_upload(&mut self) -> (r: MaterialSnapshot)
        requires
            old(self).wf(),
        ensures
            final(self).wf(),
            final(self).spec_material() == old(self).spec_material(),
            final(self).spec_surface() == old(self).spec_surface(),
            final(self).spec_panel() == old(self).spec_panel(),
            final(self).spec_shader() == old(self).spec_shader(),
            !final(self).spec_needs_upload(),
            r.shows(old(self).spec_material()),
    {
        self.material.take_for_upload()
    }

    /// Whether the payload changed since the renderer last took it.
    pub fn needs_upload(&self) -> (r: bool)
        ensures
            r == self.spec_needs_upload(),
    {
        self.material.is_dirty()
    }
}

} // verus!
