use input_state::mouse::{GenericMouseState, MouseButton};
use input_state::viewport::{pixel_to_viewport, viewport_to_pixel, ViewportCoord};
use input_state::{AnyKeyController, KeyboardController, PointerController, PointerState};

#[test]
pub fn pointer_viewport_position_is_accurate() {
    let pointer = PointerState::new((800, 600), (400, 300));
    let p = pointer.pointer_viewport_position();
    assert_eq!((p.x_num as f32 / p.x_den as f32, p.y_num as f32 / p.y_den as f32), (0.0, 0.0));
}

#[test]
pub fn pointer_viewport_position_updates_with_resize() {
    let pointer = PointerState::new((800, 600), (400, 300));
    let p = pointer.pointer_viewport_position();
    assert_eq!((p.x_num as f32 / p.x_den as f32, p.y_num as f32 / p.y_den as f32), (0.0, 0.0));
    let pointer = PointerState::new((1600, 1200), (400, 300));
    let p = pointer.pointer_viewport_position();
    assert_eq!((p.x_num as f32 / p.x_den as f32, p.y_num as f32 / p.y_den as f32), (-0.5, 0.5));
}

#[test]
fn pointer_resize_in_place_keeps_pixel_position() {
    let mut pointer = PointerState::new((800, 600), (400, 300));
    pointer.set_screen_resolution((1600, 1200));
    assert_eq!(pointer.pointer_pixel_position(), (400, 300));
    assert_eq!(pointer.screen_resolution(), (1600, 1200));
    let p = pointer.pointer_viewport_position();
    assert_eq!(p, ViewportCoord { x_num: -800, x_den: 1600, y_num: 600, y_den: 1200 });
    pointer.set_pointer_position((0, 1200));
    assert_eq!(pointer.screen_resolution(), (1600, 1200));
    assert_eq!(pointer.pointer_pixel_position(), (0, 1200));
}

#[test]
fn pixel_to_viewport_is_accurate() {
    let cases: [((i32, i32), (f32, f32)); 5] = [
        ((0, 0), (-1.0, 1.0)),
        ((1600, 0), (1.0, 1.0)),
        ((1600, 900), (1.0, -1.0)),
        ((0, 900), (-1.0, -1.0)),
        ((800, 450), (0.0, 0.0)),
    ];
    for (pixel_pos, viewport_pos) in cases {
        let c = pixel_to_viewport(pixel_pos, (1600, 900));
        assert_eq!((c.x_num as f32 / c.x_den as f32, c.y_num as f32 / c.y_den as f32), viewport_pos);
    }
}

#[test]
fn viewport_to_pixel_is_accurate() {
    let cases: [((i64, i64), (i32, i32)); 5] = [
        ((-1, 1), (0, 0)),
        ((1, 1), (1600, 0)),
        ((1, -1), (1600, 900)),
        ((-1, -1), (0, 900)),
        ((0, 0), (800, 450)),
    ];
    for ((x, y), pixel_pos) in cases {
        let c = ViewportCoord { x_num: x, x_den: 1, y_num: y, y_den: 1 };
        assert_eq!(viewport_to_pixel(c, (1600, 900)), pixel_pos);
    }
}

#[test]
fn pixel_to_viewport_gives_exact_fractions() {
    assert_eq!(
        pixel_to_viewport((1, 2), (3, 5)),
        ViewportCoord { x_num: -1, x_den: 3, y_num: 1, y_den: 5 }
    );
    assert_eq!(
        pixel_to_viewport((i32::MIN, i32::MAX), (u32::MAX, u32::MAX)),
        ViewportCoord {
            x_num: -2 * (1i64 << 31) - (u32::MAX as i64),
            x_den: u32::MAX,
            y_num: (u32::MAX as i64) - 2 * (i32::MAX as i64),
            y_den: u32::MAX,
        }
    );
}

#[test]
fn pixel_to_viewport_of_empty_viewport_has_zero_denominators() {
    let c = pixel_to_viewport((3, 4), (0, 0));
    assert_eq!(c, ViewportCoord { x_num: 6, x_den: 0, y_num: -8, y_den: 0 });
}

#[test]
fn viewport_to_pixel_truncates_toward_zero() {
    // x: (-3/2 + 1) / 2 * 1 = -0.25, which truncates to 0 rather than -1
    // y: (1 - 1/3) / 2 * 10 = 3.33.., which truncates to 3
    let c = ViewportCoord { x_num: -3, x_den: 2, y_num: 1, y_den: 3 };
    assert_eq!(viewport_to_pixel(c, (1, 10)), (0, 3));
    // x: (-7 + 1) / 2 * 3 = -9; y: (1 - 2) / 2 * 5 = -2.5, which truncates to -2
    let c = ViewportCoord { x_num: -7, x_den: 1, y_num: 2, y_den: 1 };
    assert_eq!(viewport_to_pixel(c, (3, 5)), (-9, -2));
}

#[test]
fn viewport_to_pixel_saturates() {
    let c = ViewportCoord { x_num: i64::MAX, x_den: 1, y_num: i64::MAX, y_den: 1 };
    assert_eq!(viewport_to_pixel(c, (u32::MAX, u32::MAX)), (i32::MAX, i32::MIN));
}

#[test]
fn pixel_round_trip_through_viewport() {
    for &(p, s) in &[
        ((0, 0), (1600u32, 900u32)),
        ((-17, 2000), (3, 7)),
        ((i32::MIN, i32::MAX), (u32::MAX, 1)),
        ((123, -456), (640, 480)),
    ] {
        assert_eq!(viewport_to_pixel(pixel_to_viewport(p, s), s), p);
    }
}

#[test]
fn mouse_buttons_map_to_slots() {
    assert_eq!(MouseButton::Left.index(), 0);
    assert_eq!(MouseButton::Middle.index(), 1);
    assert_eq!(MouseButton::Right.index(), 2);
    assert_eq!(MouseButton::Button(200).index(), 200);
}

#[test]
fn mouse_tracks_buttons_and_any_button() {
    let mut mouse = GenericMouseState::new((800, 600), (10, 20));
    assert!(!mouse.key_down(&MouseButton::Left));
    mouse.set_key_down(&MouseButton::Right);
    assert!(mouse.key_pressed(&MouseButton::Right));
    assert!(!mouse.key_down(&MouseButton::Left));
    assert!(mouse.any_key_pressed());
    assert!(!mouse.any_key_released());
    mouse.clear_changes();
    assert!(mouse.key_down(&MouseButton::Right));
    assert!(!mouse.any_key_pressed());
    mouse.set_key_up(&MouseButton::Button(9));
    assert!(mouse.key_released(&MouseButton::Button(9)));
    assert!(mouse.any_key_released());
    assert_eq!(mouse.pointer_pixel_position(), (10, 20));
}

#[test]
fn numbered_buttons_share_slots_with_named_ones() {
    let mut mouse = GenericMouseState::new((800, 600), (0, 0));
    mouse.set_key_down(&MouseButton::Button(1));
    assert!(mouse.key_down(&MouseButton::Middle));
    mouse.set_key_up(&MouseButton::Left);
    assert!(mouse.key_released(&MouseButton::Button(0)));
}

#[test]
fn mouse_pointer_moves_without_touching_buttons() {
    let mut mouse = GenericMouseState::new((800, 600), (400, 300));
    mouse.set_key_down(&MouseButton::Left);
    mouse.set_pointer_position((0, 0));
    mouse.set_screen_resolution((1600, 900));
    assert_eq!(mouse.screen_resolution(), (1600, 900));
    assert_eq!(mouse.pointer_pixel_position(), (0, 0));
    assert_eq!(
        mouse.pointer_viewport_position(),
        ViewportCoord { x_num: -1600, x_den: 1600, y_num: 900, y_den: 900 }
    );
    assert!(mouse.key_pressed(&MouseButton::Left));
    assert!(mouse.any_key_pressed());
}
