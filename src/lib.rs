//! Uniform binding and per-frame update logic for a live fragment-shader preview.
//!
//! Every value that the renderer reads is held here in exact, integer form:
//! time in milliseconds, the viewport in whole pixels, and each tunable
//! parameter as a fixed-point fraction of `PARAM_SCALE`.

pub mod clock;
pub mod material;
pub mod panel;
pub mod scheduler;
pub mod shader;
pub mod surface;

pub use shader::{
    ends_with, resolve, resolve_is_deterministic, ConfigError, ShaderSpec, ShaderSpecView, StageFamily,
};
pub use material::{
    set_parameter_out_of_range_is_noop, set_parameter_then_snapshot, set_time_is_idempotent,
    MaterialSnapshot, MaterialState, MaterialView, Resolution, PARAM_SCALE, SLOT_COUNT,
};
pub use surface::{
    latest_resize, react_to_resize, resize_burst_collapses, ResizeEvent, SurfaceGeometry,
};
pub use clock::update_time;
pub use panel::{create_slider, ControlPanel, ParameterChanged, ParameterSlider, SliderRange};
pub use scheduler::{FrameEvents, Viewer};
