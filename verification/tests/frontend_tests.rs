use frontier_audio::config::GameConfig;
use frontier_audio::input::{set_mouse, MouseInput, MouseState};
use frontier_audio::screen::build_rgb_palette;

#[test]
fn config_defaults() {
    let config = GameConfig::new();
    assert!(!config.use_fullscreen);
    assert!(!config.nosound);
    assert_eq!(config.screen_w, 640);
    assert_eq!(config.screen_h, 480);
}

#[test]
fn mouse_motion_accumulates_and_position_replaces() {
    let mut state = MouseState { motion_x: 10, motion_y: -5, abs_x: 1, abs_y: 2 };
    set_mouse(&mut state, MouseInput { motion_x: 3, motion_y: 4, abs_x: 100, abs_y: 200 });
    assert_eq!(state.motion_x, 13);
    assert_eq!(state.motion_y, -1);
    assert_eq!(state.abs_x, 100);
    assert_eq!(state.abs_y, 200);

    // The accumulators wrap like the core's 32-bit counters.
    let mut state = MouseState { motion_x: i32::MAX, motion_y: 0, abs_x: 0, abs_y: 0 };
    set_mouse(&mut state, MouseInput { motion_x: 1, motion_y: 0, abs_x: 0, abs_y: 0 });
    assert_eq!(state.motion_x, i32::MIN);
}

#[test]
fn palette_expands_components_into_opaque_rgb() {
    let st = vec![0x0fffu16, 0x0001, 0x0f00, 0x0234];
    let mut rgb = vec![0u32; 6];
    rgb[4] = 0xdead_beef;
    rgb[5] = 0x1234_5678;
    build_rgb_palette(&mut rgb, &st, 4);
    assert_eq!(rgb[0], 0xfff0_f0f0);
    assert_eq!(rgb[1], 0xff10_0000);
    assert_eq!(rgb[2], 0xff00_00f0);
    assert_eq!(rgb[3], 0xff40_3020);
    // Entries past the requested length are untouched.
    assert_eq!(rgb[4], 0xdead_beef);
    assert_eq!(rgb[5], 0x1234_5678);
}

#[test]
fn palette_respects_requested_length() {
    let st = vec![0x0fffu16, 0x0fff];
    let mut rgb = vec![7u32; 2];
    build_rgb_palette(&mut rgb, &st, 1);
    assert_eq!(rgb[0], 0xfff0_f0f0);
    assert_eq!(rgb[1], 7);
}
