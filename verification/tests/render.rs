use wgpu::{CompositeAlphaMode, PresentMode, TextureFormat};
use wgpu_editor::render::{
    Action, DrawCall, Event, EventStatus, WindowScalePolicy, WINDOW_SIZE,
};
use wgpu_editor::surface::{SurfaceCaps, SurfaceConfig, SurfaceError};
use wgpu_editor::WgpuRenderer;

fn sample_caps() -> SurfaceCaps {
    SurfaceCaps {
        formats: vec![
            TextureFormat::Bgra8Unorm,
            TextureFormat::Bgra8UnormSrgb,
            TextureFormat::Rgba8UnormSrgb,
        ],
        present_modes: vec![PresentMode::Fifo, PresentMode::Immediate],
        alpha_modes: vec![CompositeAlphaMode::Opaque, CompositeAlphaMode::Inherit],
    }
}

fn sample_renderer() -> WgpuRenderer {
    match WgpuRenderer::new(sample_caps()) {
        Ok(renderer) => renderer,
        Err(e) => panic!("usable capabilities were refused: {:?}", e),
    }
}

fn error_of(caps: SurfaceCaps) -> Option<SurfaceError> {
    match WgpuRenderer::new(caps) {
        Ok(_) => None,
        Err(e) => Some(e),
    }
}

/// A resize at scale factor 1: logical and physical size agree.
fn resized(width: u32, height: u32) -> Event {
    Event::Resized { width, height, logical_width: width, logical_height: height }
}

fn expected_config(width: u32, height: u32) -> SurfaceConfig {
    SurfaceConfig {
        usage: 16,
        format: TextureFormat::Bgra8UnormSrgb,
        width,
        height,
        present_mode: PresentMode::Fifo,
        alpha_mode: CompositeAlphaMode::Opaque,
    }
}

#[test]
fn window_size_is_512() {
    assert_eq!(WINDOW_SIZE, 512);
}

#[test]
fn new_configures_the_surface_for_the_opening_size() {
    let renderer = sample_renderer();
    assert_eq!(renderer.config(), expected_config(512, 512));
    assert_eq!(renderer.surface_size(), (512, 512));
    assert_eq!(renderer.size(), (512, 512));
    assert_eq!(renderer.surface_caps(), &sample_caps());
}

#[test]
fn new_refuses_capabilities_without_formats() {
    let mut caps = sample_caps();
    caps.formats.clear();
    assert_eq!(error_of(caps), Some(SurfaceError::NoFormat));
    let empty = SurfaceCaps { formats: vec![], present_modes: vec![], alpha_modes: vec![] };
    assert_eq!(error_of(empty), Some(SurfaceError::NoFormat));
}

#[test]
fn new_refuses_capabilities_without_present_modes() {
    let mut caps = sample_caps();
    caps.present_modes.clear();
    assert_eq!(error_of(caps), Some(SurfaceError::NoPresentMode));
}

#[test]
fn new_refuses_capabilities_without_alpha_modes() {
    let mut caps = sample_caps();
    caps.alpha_modes.clear();
    assert_eq!(error_of(caps), Some(SurfaceError::NoAlphaMode));
}

#[test]
fn resize_then_read_back_gives_the_new_size() {
    let mut renderer = sample_renderer();
    let sizes: [(u32, u32); 6] =
        [(1, 1), (800, 600), (600, 800), (512, 512), (3840, 2160), (u32::MAX, u32::MAX)];
    for (width, height) in sizes {
        renderer.on_event(resized(width, height));
        assert_eq!(renderer.surface_size(), (width, height));
        assert_eq!(renderer.config(), expected_config(width, height));
    }
}

#[test]
fn resize_asks_for_the_new_configuration_once() {
    let mut renderer = sample_renderer();
    let reaction = renderer.on_event(resized(1024, 768));
    assert_eq!(reaction.status, EventStatus::Captured);
    assert_eq!(reaction.actions, vec![Action::ConfigureSurface(expected_config(1024, 768))]);
}

#[test]
fn resize_keeps_the_format_of_construction() {
    let mut renderer = sample_renderer();
    let at_construction = renderer.config().format;
    renderer.on_event(resized(300, 200));
    assert_eq!(renderer.config().format, at_construction);
    renderer.on_event(resized(1920, 1080));
    assert_eq!(renderer.config().format, at_construction);
    assert_eq!(at_construction, TextureFormat::Bgra8UnormSrgb);
}

#[test]
fn resize_sets_the_logical_size_and_leaves_the_capabilities() {
    let mut renderer = sample_renderer();
    renderer.on_event(resized(300, 200));
    assert_eq!(renderer.size(), (300, 200));
    assert_eq!(renderer.surface_caps(), &sample_caps());
}

#[test]
fn resize_keeps_logical_and_physical_size_apart() {
    let mut renderer = sample_renderer();
    renderer.on_event(Event::Resized {
        width: 2048,
        height: 1536,
        logical_width: 1024,
        logical_height: 768,
    });
    assert_eq!(renderer.size(), (1024, 768));
    assert_eq!(renderer.surface_size(), (2048, 1536));
    assert_eq!(renderer.config(), expected_config(2048, 1536));
}

#[test]
fn cursor_is_measured_against_the_latest_resize() {
    let mut renderer = sample_renderer();
    assert_eq!(renderer.size(), (512, 512));
    renderer.on_event(resized(1024, 1024));
    renderer.on_event(Event::CursorMoved);
    assert_eq!(renderer.size(), (1024, 1024));
    renderer.on_event(resized(640, 480));
    renderer.on_event(Event::Other);
    renderer.on_event(Event::CursorMoved);
    assert_eq!(renderer.size(), (640, 480));
}

#[test]
fn centre_of_a_resized_window_is_half_its_logical_size() {
    let mut renderer = sample_renderer();
    renderer.on_event(resized(1024, 1024));
    renderer.on_event(Event::CursorMoved);
    let (width, height) = renderer.size();
    let (x, y) = (512.0f32, 512.0f32);
    let cx = (x - (width as f32 / 2.0)) / (width as f32 / 2.0);
    let cy = ((height as f32 / 2.0) - y) / (height as f32 / 2.0);
    assert_eq!((cx, cy), (0.0, 0.0));
}

#[test]
fn uniform_starts_at_the_window_centre() {
    let position = WgpuRenderer::initial_mouse_position();
    assert_eq!(position, [0, 0]);
    assert_eq!(position.map(f32::from_bits), [0.0, 0.0]);
    let numbers: [f32; 2] = position.map(f32::from_bits);
    let bytes: &[u8] = bytemuck::cast_slice(&numbers);
    assert_eq!(bytes, &[0u8; 8]);
}

#[test]
fn cursor_movement_asks_for_one_gesture_in_order() {
    let mut renderer = sample_renderer();
    let reaction = renderer.on_event(Event::CursorMoved);
    assert_eq!(reaction.status, EventStatus::Captured);
    assert_eq!(
        reaction.actions,
        vec![
            Action::BeginSetParameter,
            Action::PreviewNormalized,
            Action::SetParameterNormalized,
            Action::WriteMousePosition,
            Action::EndSetParameter,
        ]
    );
}

#[test]
fn cursor_movements_are_not_thinned_out() {
    let mut renderer = sample_renderer();
    let first = renderer.on_event(Event::CursorMoved);
    let second = renderer.on_event(Event::CursorMoved);
    renderer.on_event(resized(100, 100));
    let third = renderer.on_event(Event::CursorMoved);
    assert_eq!(first, second);
    assert_eq!(first, third);
    assert_eq!(first.actions.len(), 5);
}

#[test]
fn cursor_movement_leaves_the_renderer_as_it_was() {
    let mut renderer = sample_renderer();
    renderer.on_event(resized(640, 480));
    renderer.on_event(Event::CursorMoved);
    assert_eq!(renderer.config(), expected_config(640, 480));
    assert_eq!(renderer.size(), (640, 480));
}

#[test]
fn other_events_are_captured_and_ask_for_nothing() {
    let mut renderer = sample_renderer();
    let reaction = renderer.on_event(Event::Other);
    assert_eq!(reaction.status, EventStatus::Captured);
    assert_eq!(reaction.actions, Vec::<Action>::new());
    assert_eq!(renderer.config(), expected_config(512, 512));
}

#[test]
fn a_frame_draws_three_vertices_once() {
    let renderer = sample_renderer();
    assert_eq!(
        renderer.on_frame(),
        DrawCall { first_vertex: 0, end_vertex: 3, first_instance: 0, end_instance: 1 }
    );
}

#[test]
fn a_frame_is_the_same_after_events() {
    let mut renderer = sample_renderer();
    let before = renderer.on_frame();
    renderer.on_event(Event::CursorMoved);
    renderer.on_event(resized(10, 20));
    assert_eq!(renderer.on_frame(), before);
}

#[test]
fn start_gives_the_window_options() {
    let options = WgpuRenderer::start();
    assert_eq!(options.title, "wgpu on baseview");
    assert_eq!(options.size, (512, 512));
    assert_eq!(options.scale, WindowScalePolicy::SystemScaleFactor);
}
