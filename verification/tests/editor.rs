use std::sync::Arc;
use wgpu_editor::render::WindowScalePolicy;
use wgpu_editor::WgpuEditor;

struct Params {
    gain: u32,
}

fn editor() -> WgpuEditor<Params> {
    WgpuEditor { params: Arc::new(Params { gain: 7 }) }
}

#[test]
fn size_is_512_by_512() {
    assert_eq!(editor().size(), (512, 512));
}

#[test]
fn every_scale_factor_is_accepted() {
    let e = editor();
    assert!(e.set_scale_factor(1.0f32.to_bits()));
    assert!(e.set_scale_factor(2.5f32.to_bits()));
    assert!(e.set_scale_factor(0.0f32.to_bits()));
    assert!(e.set_scale_factor((-1.0f32).to_bits()));
    assert!(e.set_scale_factor(f32::NAN.to_bits()));
    assert!(e.set_scale_factor(f32::INFINITY.to_bits()));
}

#[test]
fn spawn_hands_out_the_editor_s_own_parameters() {
    let e = editor();
    let spawned = e.spawn();
    assert!(Arc::ptr_eq(&spawned.params, &e.params));
    assert_eq!(spawned.params.gain, 7);
}

#[test]
fn spawn_gives_the_window_options() {
    let spawned = editor().spawn();
    assert_eq!(spawned.options.title, "wgpu on baseview");
    assert_eq!(spawned.options.size, (512, 512));
    assert_eq!(spawned.options.scale, WindowScalePolicy::SystemScaleFactor);
}

#[test]
fn spawn_can_be_called_again() {
    let e = editor();
    let first = e.spawn();
    let second = e.spawn();
    assert_eq!(first.options, second.options);
    assert!(Arc::ptr_eq(&first.params, &second.params));
    assert_eq!(Arc::strong_count(&e.params), 3);
    drop(first);
    assert_eq!(Arc::strong_count(&e.params), 2);
    assert_eq!(second.params.gain, 7);
}

#[test]
fn notifications_change_nothing() {
    let e = editor();
    e.param_value_changed("gain", 0.5f32.to_bits());
    e.param_modulation_changed("gain", 0.1f32.to_bits());
    e.param_values_changed();
    assert_eq!(e.size(), (512, 512));
    assert_eq!(e.params.gain, 7);
    assert_eq!(Arc::strong_count(&e.params), 1);
}
