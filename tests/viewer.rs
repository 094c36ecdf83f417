use shader_preview::{
    create_slider, latest_resize, react_to_resize, resolve, update_time, ConfigError,
    ControlPanel, FrameEvents, MaterialState, ParameterChanged, ResizeEvent, Resolution,
    SliderRange, StageFamily, SurfaceGeometry, Viewer, PARAM_SCALE,
};

fn viewer(path: &str, width: u32, height: u32) -> Viewer {
    Viewer::new(resolve(path).unwrap(), width, height)
}

fn quiet_frame(elapsed_ms: u64) -> FrameEvents {
    FrameEvents { elapsed_ms, resizes: vec![], changes: vec![], toggle_pressed: false }
}

#[test]
fn scenario_wgsl_takes_default_pairing() {
    let spec = resolve("shaders/demo.wgsl").unwrap();
    assert_eq!(spec.stage_family(), StageFamily::ExtendedShadingLanguage);
    assert_eq!(spec.vertex_stage(), "shaders/default.wgsl");
    assert_eq!(spec.fragment_stage(), "shaders/demo.wgsl");
}

#[test]
fn scenario_frag_takes_legacy_pairing() {
    let spec = resolve("shaders/legacy.frag").unwrap();
    assert_eq!(spec.stage_family(), StageFamily::LegacyStageLanguage);
    assert_eq!(spec.vertex_stage(), "shaders/default.vert");
    assert_eq!(spec.fragment_stage(), "shaders/legacy.frag");
}

#[test]
fn missing_or_unknown_extension_defaults() {
    for path in ["shaders/noext", "a.glsl", "frag", "x.frag.wgsl", "shaders/.fra"] {
        let spec = resolve(path).unwrap();
        assert_eq!(spec.stage_family(), StageFamily::ExtendedShadingLanguage);
        assert_eq!(spec.vertex_stage(), "shaders/default.wgsl");
    }
    assert_eq!(resolve(".frag").unwrap().stage_family(), StageFamily::LegacyStageLanguage);
    assert_eq!(resolve("é.frag").unwrap().stage_family(), StageFamily::LegacyStageLanguage);
}

#[test]
fn empty_path_is_a_configuration_error() {
    assert_eq!(resolve("").unwrap_err(), ConfigError::EmptyPath);
}

#[test]
fn resolve_twice_gives_same_spec() {
    for path in ["shaders/demo.wgsl", "shaders/legacy.frag", "x"] {
        let a = resolve(path).unwrap();
        let b = resolve(path).unwrap();
        assert_eq!(a.stage_family(), b.stage_family());
        assert_eq!(a.vertex_stage(), b.vertex_stage());
        assert_eq!(a.fragment_stage(), b.fragment_stage());
    }
}

#[test]
fn scenario_slider_drag_sets_slot_two() {
    let mut material = MaterialState::new(Resolution { width: 800, height: 600 });
    let mut panel = ControlPanel::new();
    assert_eq!(panel.slider(2).unwrap().value(), 0);
    let applied = panel.on_update_slider(&mut material, ParameterChanged { slot: 2, value: 7300 });
    assert!(applied);
    let snap = material.snapshot();
    assert_eq!(snap.parameters, [0, 0, 7300, 0]);
    let slider = panel.slider(2).unwrap();
    assert_eq!(slider.value(), 7300);
    // 73% of the track
    assert_eq!(slider.thumb_position(), 7300);
    assert_eq!(slider.thumb_offset(300), 219);
    assert_eq!(slider.thumb_offset(10000), 7300);
}

#[test]
fn scenario_resize_mid_run() {
    let mut v = viewer("shaders/demo.wgsl", 800, 600);
    v.tick(&quiet_frame(16));
    assert_eq!(v.surface(), SurfaceGeometry { width: 800, height: 600 });
    v.tick(&FrameEvents {
        elapsed_ms: 33,
        resizes: vec![ResizeEvent { width: 400, height: 300 }],
        changes: vec![],
        toggle_pressed: false,
    });
    assert_eq!(v.surface(), SurfaceGeometry { width: 400, height: 300 });
    assert_eq!(v.snapshot().resolution, Resolution { width: 400, height: 300 });
    assert_eq!(v.snapshot().time_ms, 33);
}

#[test]
fn scenario_toggle_hides_and_restores_panel() {
    let mut v = viewer("shaders/demo.wgsl", 800, 600);
    assert!(v.panel().is_visible());
    let mut press = quiet_frame(1);
    press.toggle_pressed = true;
    v.tick(&press);
    assert!(!v.panel().is_visible());
    for slot in 0..4 {
        assert!(!v.panel().is_interactive(slot));
    }
    // a hidden panel takes no input
    v.tick(&FrameEvents {
        elapsed_ms: 2,
        resizes: vec![],
        changes: vec![ParameterChanged { slot: 1, value: 5000 }],
        toggle_pressed: false,
    });
    assert_eq!(v.snapshot().parameters, [0, 0, 0, 0]);
    assert_eq!(v.panel().slider(1).unwrap().value(), 0);
    press.elapsed_ms = 3;
    v.tick(&press);
    assert!(v.panel().is_visible());
    for slot in 0..4 {
        assert!(v.panel().is_interactive(slot));
    }
    assert!(!v.panel().is_interactive(4));
}

#[test]
fn resize_burst_uses_final_size_only() {
    let mut surface = SurfaceGeometry::new(800, 600);
    let mut material = MaterialState::new(Resolution { width: 800, height: 600 });
    let events = vec![
        ResizeEvent { width: 100, height: 100 },
        ResizeEvent { width: 640, height: 480 },
        ResizeEvent { width: 1024, height: 768 },
    ];
    assert_eq!(latest_resize(&events), Some(ResizeEvent { width: 1024, height: 768 }));
    assert!(react_to_resize(&mut surface, &mut material, &events));
    assert_eq!(surface, SurfaceGeometry { width: 1024, height: 768 });
    assert_eq!(material.resolution(), Resolution { width: 1024, height: 768 });
}

#[test]
fn no_resize_keeps_geometry() {
    let mut surface = SurfaceGeometry::new(800, 600);
    let mut material = MaterialState::new(Resolution { width: 800, height: 600 });
    assert_eq!(latest_resize(&vec![]), None);
    assert!(!react_to_resize(&mut surface, &mut material, &vec![]));
    assert_eq!(surface, SurfaceGeometry { width: 800, height: 600 });
}

#[test]
fn zero_size_viewport_gives_degenerate_quad() {
    let mut v = viewer("a.wgsl", 800, 600);
    v.tick(&FrameEvents {
        elapsed_ms: 5,
        resizes: vec![ResizeEvent { width: 0, height: 300 }],
        changes: vec![],
        toggle_pressed: false,
    });
    assert!(v.surface().is_degenerate());
    assert_eq!(v.snapshot().resolution, Resolution { width: 0, height: 300 });
    assert!(!SurfaceGeometry::new(1, 1).is_degenerate());
}

#[test]
fn set_parameter_in_range_touches_one_slot() {
    let mut m = MaterialState::new(Resolution { width: 10, height: 20 });
    m.set_time(1234);
    m.set_parameter(0, 1);
    m.set_parameter(3, PARAM_SCALE);
    let snap = m.snapshot();
    assert_eq!(snap.parameters, [1, 0, 0, PARAM_SCALE]);
    assert_eq!(snap.time_ms, 1234);
    assert_eq!(snap.resolution, Resolution { width: 10, height: 20 });
    assert_eq!(m.parameter(3), Some(PARAM_SCALE));
    assert_eq!(m.parameter(4), None);
}

#[test]
fn set_parameter_out_of_range_changes_nothing() {
    let mut m = MaterialState::new(Resolution { width: 10, height: 20 });
    m.set_parameter(1, 42);
    let _ = m.take_for_upload();
    assert!(!m.is_dirty());
    m.set_parameter(4, 99);
    m.set_parameter(usize::MAX, 99);
    assert!(!m.is_dirty());
    assert_eq!(m.snapshot().parameters, [0, 42, 0, 0]);
}

#[test]
fn set_time_twice_equals_once() {
    let mut once = MaterialState::new(Resolution { width: 1, height: 1 });
    let mut twice = MaterialState::new(Resolution { width: 1, height: 1 });
    once.set_time(500);
    twice.set_time(500);
    twice.set_time(500);
    assert_eq!(once.snapshot().time_ms, twice.snapshot().time_ms);
    assert_eq!(once.snapshot().parameters, twice.snapshot().parameters);
    assert_eq!(once.snapshot().resolution, twice.snapshot().resolution);
}

#[test]
fn clock_never_goes_back() {
    let mut m = MaterialState::new(Resolution { width: 1, height: 1 });
    update_time(&mut m, 100);
    assert_eq!(m.time_ms(), 100);
    update_time(&mut m, 50);
    assert_eq!(m.time_ms(), 100);
    update_time(&mut m, 250);
    assert_eq!(m.time_ms(), 250);
}

#[test]
fn slider_values_are_held_to_range() {
    let mut m = MaterialState::new(Resolution { width: 1, height: 1 });
    let mut panel = ControlPanel::new();
    assert!(panel.on_update_slider(&mut m, ParameterChanged { slot: 0, value: PARAM_SCALE + 5 }));
    assert_eq!(m.parameter(0), Some(PARAM_SCALE));
    assert_eq!(panel.slider(0).unwrap().value(), PARAM_SCALE);
    assert!(!panel.on_update_slider(&mut m, ParameterChanged { slot: 7, value: 1 }));
    assert!(panel.slider(7).is_none());
}

#[test]
fn thumb_position_interpolates_linearly() {
    let r = SliderRange { start: 2000, end: 6000 };
    assert_eq!(r.thumb_position(1000), 0);
    assert_eq!(r.thumb_position(2000), 0);
    assert_eq!(r.thumb_position(4000), 5000);
    assert_eq!(r.thumb_position(5000), 7500);
    assert_eq!(r.thumb_position(6000), PARAM_SCALE);
    assert_eq!(r.thumb_position(9000), PARAM_SCALE);
    assert_eq!(r.clamp(1), 2000);
    assert_eq!(r.clamp(7000), 6000);
    assert_eq!(r.clamp(3000), 3000);
    assert_eq!(SliderRange::unit(), SliderRange { start: 0, end: PARAM_SCALE });
}

#[test]
fn panel_has_four_sliders_one_per_slot() {
    let panel = ControlPanel::new();
    for slot in 0..4 {
        let s = panel.slider(slot).unwrap();
        assert_eq!(s.slot_index(), slot);
        assert_eq!(s.value(), 0);
        assert_eq!(s.range(), SliderRange::unit());
        assert_eq!(s.thumb_position(), 0);
    }
    assert!(panel.slider(4).is_none());
    let s = create_slider(3);
    assert_eq!(s.slot_index(), 3);
}

#[test]
fn tick_applies_changes_in_order_and_marks_dirty() {
    let mut v = viewer("shaders/demo.wgsl", 640, 480);
    assert!(v.needs_upload());
    let _ = v.take_for_upload();
    assert!(!v.needs_upload());
    v.tick(&FrameEvents {
        elapsed_ms: 40,
        resizes: vec![],
        changes: vec![
            ParameterChanged { slot: 1, value: 1000 },
            ParameterChanged { slot: 3, value: 2500 },
            ParameterChanged { slot: 1, value: 9000 },
            ParameterChanged { slot: 9, value: 9000 },
        ],
        toggle_pressed: false,
    });
    assert!(v.needs_upload());
    let snap = v.take_for_upload();
    assert_eq!(snap.parameters, [0, 9000, 0, 2500]);
    assert_eq!(snap.time_ms, 40);
    assert_eq!(v.panel().slider(1).unwrap().value(), 9000);
    assert_eq!(v.panel().slider(3).unwrap().value(), 2500);
    assert_eq!(v.shader().vertex_stage(), "shaders/default.wgsl");
}

#[test]
fn suffix_test_compares_whole_characters() {
    assert!(shader_preview::ends_with("a.frag", ".frag"));
    assert!(shader_preview::ends_with(".frag", ".frag"));
    assert!(shader_preview::ends_with("x", ""));
    assert!(!shader_preview::ends_with("frag", ".frag"));
    assert!(!shader_preview::ends_with("a.Frag", ".frag"));
    assert!(!shader_preview::ends_with("", ".frag"));
    assert!(shader_preview::ends_with("ünï", "nï"));
}
