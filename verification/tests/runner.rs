use glcookbook::error::GLErrorKind;
use glcookbook::scene::GLSourceCode;
use glcookbook::scenerunner::{Key, LoopEvent, SceneParams, SceneRunner};
use glcookbook::timer::Timer;

fn candidates() -> Vec<(String, String)> {
    vec![
        ("basic".to_string(), "A basic triangle".to_string()),
        ("diffuse".to_string(), "Diffuse shading".to_string()),
    ]
}

fn args(list: &[&str]) -> Vec<String> {
    list.iter().map(|s| s.to_string()).collect()
}

#[test]
fn recipe_found() {
    let r = SceneRunner::parse_command_line_args(&args(&["prog", "diffuse"]), &candidates());
    assert_eq!(r.unwrap(), ("diffuse".to_string(), "Diffuse shading".to_string()));
}

#[test]
fn recipe_missing() {
    let r = SceneRunner::parse_command_line_args(&args(&["prog"]), &candidates());
    match r.unwrap_err().kind() {
        GLErrorKind::Args { description } => assert!(description.starts_with("You must provide at least 2 arguments")),
        _ => panic!("wrong kind"),
    }
}

#[test]
fn recipe_unknown() {
    let r = SceneRunner::parse_command_line_args(&args(&["prog", "phong"]), &candidates());
    match r.unwrap_err().kind() {
        GLErrorKind::Args { description } => assert_eq!(description, "Unknown recipe: phong\n"),
        _ => panic!("wrong kind"),
    }
}

#[test]
fn recipe_name_width() {
    assert_eq!(SceneRunner::recipe_name_width(&candidates()), 7);
    assert_eq!(SceneRunner::recipe_name_width(&Vec::new()), 10);
}

#[test]
fn loop_events() {
    let esc = LoopEvent::KeyboardInput { key: Some(Key::Escape), released: true };
    let a = SceneRunner::handle_event(esc, true);
    assert!(a.exit && a.end_debug_marker && !a.toggle_animation && !a.resize);
    let a = SceneRunner::handle_event(esc, false);
    assert!(a.exit && !a.end_debug_marker);
    let pressed = LoopEvent::KeyboardInput { key: Some(Key::Escape), released: false };
    assert!(!SceneRunner::handle_event(pressed, true).exit);
    let space = LoopEvent::KeyboardInput { key: Some(Key::Space), released: true };
    let a = SceneRunner::handle_event(space, true);
    assert!(a.toggle_animation && !a.exit);
    assert!(SceneRunner::handle_event(LoopEvent::CloseRequested, false).exit);
    assert!(SceneRunner::handle_event(LoopEvent::Resized, false).resize);
    let a = SceneRunner::handle_event(LoopEvent::Other, true);
    assert!(!a.exit && !a.resize && !a.toggle_animation && !a.end_debug_marker);
}

#[test]
fn scene_params_from_tuple() {
    let p = SceneParams::from(("Chapter 1".to_string(), 800, 600, 4, true));
    assert_eq!(p.title(), "Chapter 1");
    assert_eq!((p.width(), p.height(), p.samples(), p.is_debug()), (800, 600, 4, true));
}

#[test]
fn timer_window() {
    let mut t = Timer::new();
    assert_eq!(t.sample_sum(), 0);
    for d in [10u32, 20, 30, 40, 50, 60] {
        t.record_frame(d);
    }
    // the first frame has left the window
    assert_eq!(t.sample_sum(), 200);
    assert_eq!(t.delta_micros(), 60);
    t.tick_frame();
    assert!(t.delta_micros() < 1_000_000);
}

#[test]
fn timer_ring_buffer() {
    let mut t = Timer::new();
    assert_eq!(t.delta_micros(), 0);
    t.record_frame(7);
    t.record_frame(11);
    // the slots that no frame reached are still zero
    assert_eq!(t.sample_sum(), 18);
    assert_eq!(t.delta_micros(), 11);
    for d in [100u32, 200, 300, 400, 500, 600, 700, 800] {
        t.record_frame(d);
    }
    // ten frames in all: only the last five are remembered
    assert_eq!(t.sample_sum(), 400 + 500 + 600 + 700 + 800);
    assert_eq!(t.delta_micros(), 800);
}

#[test]
fn shader_sources() {
    let s = GLSourceCode::new("vs", "fs").with_geometry_shader("gs").with_srgb_output(true);
    assert_eq!(s.vertex_shader(), "vs");
    assert_eq!(s.fragment_shader(), "fs");
    assert_eq!(s.geometry_shader(), Some("gs"));
    assert_eq!(s.tessellation_control_shader(), None);
    assert!(s.outputs_srgb() && !s.uses_point_size());
    let s = s.with_tessellation_control_shader("tc").with_tessellation_evaluation_shader("te").with_point_size_enable(true);
    assert_eq!(s.tessellation_evaluation_shader(), Some("te"));
    assert!(s.uses_point_size());
}
