use automaton_renderer::renderer::{Renderer, RendererError, TargetDimensions};

fn fresh() -> Renderer {
    Renderer::new(TargetDimensions::Dim2d {
        width: 64,
        height: 64,
    })
    .unwrap()
}

#[test]
fn construction_rejects_non_2d_targets() {
    let one_d = Renderer::new(TargetDimensions::Dim1d { width: 128 });
    assert_eq!(one_d.err(), Some(RendererError::TargetNotTwoDimensional));

    let three_d = Renderer::new(TargetDimensions::Dim3d {
        width: 16,
        height: 16,
        depth: 16,
    });
    assert_eq!(three_d.err(), Some(RendererError::TargetNotTwoDimensional));
}

#[test]
fn construction_starts_in_the_default_state() {
    let renderer = fresh();
    assert_eq!(renderer.target_width, 64);
    assert_eq!(renderer.target_height, 64);
    assert!(renderer.reset_requested);
    assert_eq!(renderer.rate, 1);
    assert_eq!(renderer.frame_step, 0);
    assert_eq!(renderer.offset_x, 0);
    assert_eq!(renderer.offset_y, 0);
    assert_eq!(renderer.zoom, 1);
    assert_eq!(renderer.parameters.len(), 128);
    assert!(renderer.parameters.iter().all(|&value| value == 0));
}

#[test]
fn zoom_stays_clamped_through_any_sequence() {
    let mut renderer = fresh();
    for _ in 0..10 {
        renderer.offset_zoom(true);
        assert!(1 <= renderer.zoom && renderer.zoom <= 4);
    }
    assert_eq!(renderer.zoom, 4);
    for _ in 0..10 {
        renderer.offset_zoom(false);
        assert!(1 <= renderer.zoom && renderer.zoom <= 4);
    }
    assert_eq!(renderer.zoom, 1);
}

#[test]
fn zoom_increment_walks_up_and_saturates() {
    let mut renderer = fresh();
    renderer.offset_zoom(true);
    assert_eq!(renderer.zoom, 2);
    renderer.offset_zoom(true);
    assert_eq!(renderer.zoom, 3);
    renderer.offset_zoom(true);
    assert_eq!(renderer.zoom, 4);
    renderer.offset_zoom(true);
    assert_eq!(renderer.zoom, 4);
    renderer.offset_zoom(false);
    assert_eq!(renderer.zoom, 3);
}

#[test]
fn zoom_decrement_at_one_is_a_noop() {
    let mut renderer = fresh();
    renderer.offset_zoom(false);
    assert_eq!(renderer.zoom, 1);
    renderer.offset_zoom(false);
    assert_eq!(renderer.zoom, 1);
}

#[test]
fn rate_doubles_from_paused_and_halves_to_paused() {
    let mut renderer = fresh();
    renderer.pause();
    assert_eq!(renderer.rate, 0);
    renderer.offset_rate(true);
    assert_eq!(renderer.rate, 1);
    renderer.offset_rate(true);
    assert_eq!(renderer.rate, 2);
    renderer.offset_rate(true);
    assert_eq!(renderer.rate, 4);
    renderer.offset_rate(true);
    assert_eq!(renderer.rate, 8);
    renderer.offset_rate(false);
    assert_eq!(renderer.rate, 4);
    renderer.offset_rate(false);
    assert_eq!(renderer.rate, 2);
    renderer.offset_rate(false);
    assert_eq!(renderer.rate, 1);
    renderer.offset_rate(false);
    assert_eq!(renderer.rate, 0);
    renderer.offset_rate(false);
    assert_eq!(renderer.rate, 0);
}

#[test]
fn pause_forces_rate_to_zero_from_any_value() {
    let mut renderer = fresh();
    for _ in 0..3 {
        renderer.offset_rate(true);
    }
    assert_eq!(renderer.rate, 8);
    renderer.pause();
    assert_eq!(renderer.rate, 0);
    renderer.pause();
    assert_eq!(renderer.rate, 0);
}

#[test]
fn skip_frames_accumulates_extra_steps() {
    let mut renderer = fresh();
    renderer.skip_frames(3);
    assert_eq!(renderer.frame_step, 3);
    renderer.skip_frames(0);
    assert_eq!(renderer.frame_step, 3);
    renderer.skip_frames(2);
    assert_eq!(renderer.frame_step, 5);
}

#[test]
fn reset_world_sets_flag_and_bumps_accumulator() {
    let mut renderer = fresh();
    let _ = renderer.add_render_commands(Vec::new());
    assert!(!renderer.reset_requested);
    assert_eq!(renderer.frame_step, 0);
    renderer.reset_world();
    assert!(renderer.reset_requested);
    assert_eq!(renderer.frame_step, 1);
    renderer.reset_world();
    assert!(renderer.reset_requested);
    assert_eq!(renderer.frame_step, 2);
}

#[test]
fn set_offset_stores_pixel_offsets() {
    let mut renderer = fresh();
    renderer.set_offset(512, -256);
    assert_eq!(renderer.offset_x, 512);
    assert_eq!(renderer.offset_y, -256);
}

#[test]
fn set_parameters_writes_prefix_and_preserves_rest() {
    let mut renderer = fresh();
    let filler: Vec<i16> = (0..128).map(|i| i as i16 + 100).collect();
    renderer.set_parameters(&filler);
    let short: Vec<i16> = vec![7, 8, 9];
    renderer.set_parameters(&short);
    assert_eq!(renderer.parameters[0], 7);
    assert_eq!(renderer.parameters[1], 8);
    assert_eq!(renderer.parameters[2], 9);
    for i in 3..128 {
        assert_eq!(renderer.parameters[i], i as u16 + 100);
    }
}

#[test]
fn set_parameters_ignores_input_past_capacity() {
    let mut renderer = fresh();
    let long: Vec<i16> = (0..130).map(|i| i as i16).collect();
    renderer.set_parameters(&long);
    assert_eq!(renderer.parameters.len(), 128);
    for i in 0..128 {
        assert_eq!(renderer.parameters[i], i as u16);
    }
}

#[test]
fn set_parameters_wraps_negative_values_to_bit_patterns() {
    let mut renderer = fresh();
    let values: Vec<i16> = vec![-1, -32768, 0, 32767];
    renderer.set_parameters(&values);
    assert_eq!(renderer.parameters[0], 0xffff);
    assert_eq!(renderer.parameters[1], 0x8000);
    assert_eq!(renderer.parameters[2], 0);
    assert_eq!(renderer.parameters[3], 32767);
}
