use vstd::prelude::*;
use crate::material::{MaterialState, Resolution};

verus! {

/// A viewport resize notification: the window's new size in pixels.
#[derive(Clone, Copy, Debug, PartialEq, Eq, Structural)]
pub struct ResizeEvent {
    pub width: u32,
    pub height: u32,
}

/// The full-viewport quad. A zero side gives a degenerate quad, which draws
/// nothing but is not an error.
#[derive(Clone, Copy, Debug, PartialEq, Eq, Structural)]
pub struct SurfaceGeometry {
    pub width: u32,
    pub height: u32,
}

/// The quad that covers a viewport of the event's size.
pub open spec fn geometry_for(e: ResizeEvent) -> SurfaceGeometry {
    SurfaceGeometry { width: e.width, height: e.height }
}

/// The geometry after one check of the notifications that arrived in a tick:
/// rebuilt from the last of them, or kept when there were none.
pub open spec fn surface_after(current: SurfaceGeometry, events: Seq<ResizeEvent>) -> SurfaceGeometry {
    if events.len() == 0 {
        current
    } else {
        geometry_for(events.last())
    }
}

impl SurfaceGeometry {
    /// A quad that covers a viewport of `width` by `height` pixels.
    pub fn new(width: u32, height: u32) -> (r: SurfaceGeometry)
        ensures
            r.width == width,
            r.height == height,
    {
        SurfaceGeometry { width, height }
    }

    /// Whether the quad covers no area.
    pub fn is_degenerate(&self) -> (r: bool)
        ensures
            r == (self.width == 0 || self.height == 0),
    {
        self.width == 0 || self.height == 0
    }

    /// The viewport size this quad covers.
    pub fn resolution(&self) -> (r: Resolution)
        ensures
            r.width == self.width,
            r.height == self.height,
    {
        Resolution { width: self.width, height: self.height }
    }
}

/// The last notification of a tick, if any arrived.
pub fn latest_resize(events: &Vec<ResizeEvent>) -> (r: Option<ResizeEvent>)
    ensures
        events@.len() == 0 ==> r is None,
        events@.len() > 0 ==> r == Some(events@.last()),
{
    let n = events.len();
    if n == 0 {
        None
    } else {
        Some(events[n - 1])
    }
}

/// Checks the notifications of one tick. When at least one arrived, installs
/// a new quad of the final size and writes that size into the material as
/// its resolution; the earlier notifications of the tick cause no rebuild.
/// Returns whether a rebuild happened.
pub fn react_to_resize(
    surface: &mut SurfaceGeometry,
    material: &mut MaterialState,
    events: &Vec<ResizeEvent>,
) -> (rebuilt: bool)
    requires
        old(material).wf(),
    ensures
        rebuilt == (events@.len() > 0),
        *final(surface) == surface_after(*old(surface), events@),
        final(material).wf(),
        rebuilt ==> final(material)@ == old(material)@.with_resolution(
            Resolution { width: events@.last().width, height: events@.last().height },
        ),
        rebuilt ==> final(material).spec_dirty(),
        !rebuilt ==> final(material)@ == old(material)@,
        !rebuilt ==> final(material).spec_dirty() == old(material).spec_dirty(),
{
    match latest_resize(events) {
        Some(e) => {
            *surface = SurfaceGeometry::new(e.width, e.height);
            material.set_resolution(e.width, e.height);
            true
        },
        None => false,
    }
}

/// However many notifications arrive in one tick, the rebuilt quad depends
/// on the final one alone.
pub proof fn resize_burst_collapses(
    current: SurfaceGeometry,
    earlier: Seq<ResizeEvent>,
    last: ResizeEvent,
)
    ensures
        surface_after(current, earlier.push(last)) == geometry_for(last),
        surface_after(current, earlier.push(last)) == surface_after(current, seq![last]),
{
}

} // verus!
