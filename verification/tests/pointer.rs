use cocoa_way::drag::Drag;
use cocoa_way::effect::Effect;
use cocoa_way::input::{
    button_code, key_input, mouse_button, pointer_motion, timestamp, utime, wheel, Axis, AxisMotion,
    AxisSource, KeyInput, MouseButton, PointerConstraint, Scroll,
};
use cocoa_way::scene::{
    evictions, hit_test, pointer_focus, popup_origin, retain_alive, tile_origin, PointerFocus,
    Position, SurfaceId, Tile,
};

const A: SurfaceId = SurfaceId { raw: 1 };
const B: SurfaceId = SurfaceId { raw: 2 };
const C: SurfaceId = SurfaceId { raw: 3 };

fn tile(surface: SurfaceId, x: i32, y: i32, width: i32, height: i32) -> Tile {
    Tile { surface, position: Position { x, y }, width, height }
}

#[test]
fn keys_are_offset() {
    assert_eq!(key_input(true, Some(30), true), Some(KeyInput { keycode: 38, pressed: true }));
    assert_eq!(key_input(true, Some(1), false), Some(KeyInput { keycode: 9, pressed: false }));
    assert_eq!(key_input(true, None, true), None);
    assert_eq!(key_input(false, Some(30), true), None);
}

#[test]
fn button_codes() {
    assert_eq!(button_code(MouseButton::Left), 0x110);
    assert_eq!(button_code(MouseButton::Right), 0x111);
    assert_eq!(button_code(MouseButton::Middle), 0x112);
    assert_eq!(button_code(MouseButton::Other), 0x110);
}

#[test]
fn a_click_focuses_and_activates() {
    let mut drag: Drag<(f64, f64)> = Drag::new();
    let effects = mouse_button(&mut drag, MouseButton::Left, true, Some(B), &[A, B], (0.0, 0.0));
    assert_eq!(
        effects,
        vec![
            Effect::FocusKeyboard(Some(B)),
            Effect::ActivateToplevel(B),
            Effect::Button { code: 0x110, pressed: true },
            Effect::PointerFrame,
        ]
    );
}

#[test]
fn a_click_on_a_popup_only_focuses() {
    let mut drag: Drag<(f64, f64)> = Drag::new();
    let effects = mouse_button(&mut drag, MouseButton::Left, true, Some(C), &[A, B], (0.0, 0.0));
    assert_eq!(
        effects,
        vec![
            Effect::FocusKeyboard(Some(C)),
            Effect::Button { code: 0x110, pressed: true },
            Effect::PointerFrame,
        ]
    );
}

#[test]
fn a_click_beside_all_windows_clears_the_focus() {
    let mut drag: Drag<(f64, f64)> = Drag::new();
    let effects = mouse_button(&mut drag, MouseButton::Left, true, None, &[A], (0.0, 0.0));
    assert_eq!(effects[0], Effect::FocusKeyboard(None));
    assert_eq!(effects.len(), 3);
}

#[test]
fn other_buttons_are_only_reported() {
    let mut drag: Drag<(f64, f64)> = Drag::new();
    drag.request = Some(A);
    drag.active = Some((B, (1.0, 2.0)));
    let report = |code, pressed| vec![Effect::Button { code, pressed }, Effect::PointerFrame];
    let right = mouse_button(&mut drag, MouseButton::Right, true, Some(A), &[A], (9.0, 9.0));
    assert_eq!(right, report(0x111, true));
    let other = mouse_button(&mut drag, MouseButton::Other, false, Some(A), &[A], (9.0, 9.0));
    assert_eq!(other, report(0x110, false));
    assert_eq!(drag.request, Some(A));
    assert_eq!(drag.active, Some((B, (1.0, 2.0))));
}

#[test]
fn a_request_begins_one_move() {
    let mut drag: Drag<(f64, f64)> = Drag::new();
    assert_eq!(drag.cursor_moved((1.0, 1.0)), vec![Effect::FindFocus]);
    drag.request = Some(A);
    let follow = vec![Effect::MoveTile(A), Effect::RequestRedraw, Effect::FindFocus];
    assert_eq!(drag.cursor_moved((5.5, 6.5)), follow);
    assert_eq!(drag.request, None);
    assert_eq!(drag.active, Some((A, (5.5, 6.5))));
    assert_eq!(drag.cursor_moved((7.0, 7.0)), follow);
    assert_eq!(drag.active, Some((A, (5.5, 6.5))));
}

#[test]
fn a_press_begins_and_a_release_ends_a_move() {
    let mut drag: Drag<(f64, f64)> = Drag::new();
    drag.request = Some(A);
    mouse_button(&mut drag, MouseButton::Left, true, Some(A), &[A], (3.0, 4.0));
    assert_eq!(drag.active, Some((A, (3.0, 4.0))));
    let effects = mouse_button(&mut drag, MouseButton::Left, false, Some(A), &[A], (8.0, 8.0));
    let report = vec![Effect::Button { code: 0x110, pressed: false }, Effect::PointerFrame];
    assert_eq!(effects, report);
    assert_eq!(drag.active, None);
    assert_eq!(drag.cursor_moved((1.0, 1.0)), vec![Effect::FindFocus]);
}

#[test]
fn a_later_request_redirects_the_move() {
    let mut drag: Drag<(f64, f64)> = Drag::new();
    drag.request = Some(A);
    drag.begin((1.0, 1.0));
    drag.request = Some(B);
    assert_eq!(drag.cursor_moved((2.0, 2.0))[0], Effect::MoveTile(B));
    drag.end();
    assert_eq!(drag.active, None);
}

#[test]
fn motion_is_withheld_only_from_a_held_pointer() {
    let held = Some(PointerConstraint { locked: true, active: true });
    let idle = Some(PointerConstraint { locked: true, active: false });
    let confined = Some(PointerConstraint { locked: false, active: true });
    let focus = Some(PointerFocus { surface: A, origin: Position { x: 3, y: 4 } });
    let plain = vec![Effect::Motion(focus), Effect::PointerFrame];
    assert_eq!(pointer_motion(focus, None, false), plain);
    assert_eq!(pointer_motion(focus, idle, false), plain);
    assert_eq!(pointer_motion(focus, confined, false), plain);
    assert_eq!(
        pointer_motion(None, held, false),
        vec![Effect::Motion(None), Effect::PointerFrame]
    );
    assert_eq!(pointer_motion(focus, held, false), vec![Effect::PointerFrame]);
    assert_eq!(
        pointer_motion(focus, held, true),
        vec![Effect::RelativeMotion(focus), Effect::PointerFrame]
    );
    assert_eq!(
        pointer_motion(focus, None, true),
        vec![Effect::RelativeMotion(focus), Effect::Motion(focus), Effect::PointerFrame]
    );
}

#[test]
fn wheels_scroll_by_lines() {
    assert_eq!(
        wheel(Scroll::Lines { horizontal: true, vertical: true }, false),
        Some(AxisMotion {
            axis: Axis::Horizontal,
            factor: -10,
            source: AxisSource::Wheel,
            stop_horizontal: false,
            stop_vertical: false,
        })
    );
    assert_eq!(
        wheel(Scroll::Lines { horizontal: false, vertical: true }, true),
        Some(AxisMotion {
            axis: Axis::Vertical,
            factor: -10,
            source: AxisSource::Wheel,
            stop_horizontal: false,
            stop_vertical: true,
        })
    );
    assert_eq!(wheel(Scroll::Lines { horizontal: false, vertical: false }, true), None);
}

#[test]
fn fingers_scroll_by_pixels() {
    assert_eq!(
        wheel(Scroll::Pixels { horizontal: true, vertical: false }, true),
        Some(AxisMotion {
            axis: Axis::Horizontal,
            factor: -1,
            source: AxisSource::Finger,
            stop_horizontal: true,
            stop_vertical: false,
        })
    );
    assert_eq!(wheel(Scroll::Pixels { horizontal: false, vertical: false }, false), None);
}

#[test]
fn time_stamps_wrap() {
    assert_eq!(timestamp(5), 5);
    assert_eq!(timestamp(0xffff_ffff), u32::MAX);
    assert_eq!(timestamp(0x1_0000_0000), 0);
    assert_eq!(timestamp(0x3_0000_0007), 7);
    assert_eq!(utime(u32::MAX), 4_294_967_295_000);
}

#[test]
fn the_topmost_tile_is_hit() {
    let tiles = vec![tile(A, 0, 0, 100, 100), tile(B, 50, 50, 100, 100), tile(C, -20, 0, 10, 10)];
    assert_eq!(hit_test(&tiles, 10, 10), Some(0));
    assert_eq!(hit_test(&tiles, 50, 50), Some(1));
    assert_eq!(hit_test(&tiles, 99, 99), Some(1));
    assert_eq!(hit_test(&tiles, 149, 149), Some(1));
    assert_eq!(hit_test(&tiles, 150, 149), None);
    assert_eq!(hit_test(&tiles, 100, 10), None);
    assert_eq!(hit_test(&tiles, -20, 0), Some(2));
    assert_eq!(hit_test(&tiles, -10, 0), None);
    assert_eq!(hit_test(&[], 0, 0), None);
}

#[test]
fn the_focus_is_the_tile_that_is_hit() {
    let tiles = vec![tile(A, 0, 0, 100, 100), tile(B, 50, 60, 100, 100)];
    let origin = Position { x: 50, y: 60 };
    assert_eq!(
        pointer_focus(&tiles, Some((70, 70))),
        Some(PointerFocus { surface: B, origin })
    );
    assert_eq!(pointer_focus(&tiles, Some((200, 200))), None);
    assert_eq!(pointer_focus(&tiles, None), None);
}

#[test]
fn edges_of_large_tiles_do_not_overflow() {
    let tiles = vec![tile(A, i32::MAX, i32::MAX, i32::MAX, i32::MAX)];
    assert_eq!(hit_test(&tiles, 4_294_967_293, 4_294_967_293), Some(0));
    assert_eq!(hit_test(&tiles, 4_294_967_294, 4_294_967_293), None);
    assert_eq!(hit_test(&tiles, i64::MAX, i64::MIN), None);
}

#[test]
fn origins_default_to_zero() {
    let tiles = vec![tile(A, 3, 4, 1, 1), tile(B, 5, 6, 1, 1)];
    assert_eq!(tile_origin(&tiles, B), Position { x: 5, y: 6 });
    assert_eq!(tile_origin(&tiles, C), Position { x: 0, y: 0 });
}

#[test]
fn popups_are_placed_in_their_parents() {
    let tiles = vec![tile(A, 100, 200, 1, 1)];
    let offset = Some(Position { x: 7, y: -8 });
    assert_eq!(popup_origin(&tiles, Some(A), offset), Some(Position { x: 107, y: 192 }));
    assert_eq!(popup_origin(&tiles, Some(B), offset), offset);
    assert_eq!(popup_origin(&tiles, None, offset), None);
    assert_eq!(popup_origin(&tiles, Some(A), None), None);
}

#[test]
fn the_living_stay_in_order() {
    let mut items = vec!["a", "b", "c", "d"];
    retain_alive(&mut items, &[true, false, false, true]);
    assert_eq!(items, vec!["a", "d"]);
    retain_alive(&mut items, &[true, true]);
    assert_eq!(items, vec!["a", "d"]);
    retain_alive(&mut items, &[false, false]);
    assert!(items.is_empty());
}

#[test]
fn the_dead_are_evicted() {
    let tiles = vec![tile(A, 0, 0, 1, 1), tile(B, 0, 0, 1, 1), tile(C, 0, 0, 1, 1)];
    assert_eq!(evictions(&tiles, &[false, true, false]), vec![A, C]);
    assert_eq!(evictions(&tiles, &[true, true, true]), vec![]);
}
