use asus_numpad::backlight::{brightness_command, Brightness};
use asus_numpad::layout::{
    get_layout, G634jyLayout, KeyCode, NumpadLayout, BTN_TOOL_FINGER, KEY_5, KEY_CALC, KEY_KP0,
    KEY_KP6, KEY_KP7, KEY_KPENTER,
};
use asus_numpad::error::DriverError;
use asus_numpad::numpad::{
    cell_of, resolve_key, Action, NumpadState, ABS_MT_POSITION_X, ABS_MT_POSITION_Y, EV_ABS,
    EV_KEY,
};
use asus_numpad::position::{
    normalize_x, normalize_y, Corner, Fraction, TouchPosition, TouchpadBounds,
};

fn frac(num: i64, den: i64) -> Fraction {
    Fraction { num, den }
}

fn at(x: Fraction, y: Fraction) -> TouchPosition {
    TouchPosition { x, y }
}

fn layout() -> NumpadLayout {
    get_layout("g634jy").unwrap()
}

fn state_at(x: Fraction, y: Fraction) -> NumpadState {
    let mut s = NumpadState::new();
    s.current_position = at(x, y);
    s
}

#[test]
fn brightness_bytes() {
    assert_eq!(Brightness::Off.as_byte(), 0x00);
    assert_eq!(Brightness::High.as_byte(), 0x01);
    assert_eq!(Brightness::Medium.as_byte(), 0x18);
    assert_eq!(Brightness::Low.as_byte(), 0x1f);
}

#[test]
fn brightness_cycle_is_closed() {
    assert_eq!(Brightness::Low.next(), Brightness::Medium);
    assert_eq!(Brightness::Medium.next(), Brightness::High);
    assert_eq!(Brightness::High.next(), Brightness::Low);
    assert_eq!(Brightness::Off.next(), Brightness::Low);
    let mut b = Brightness::Low;
    for _ in 0..9 {
        b = b.next();
        assert_ne!(b, Brightness::Off);
    }
    assert_eq!(b, Brightness::Low);
}

#[test]
fn backlight_command_bytes() {
    assert_eq!(
        brightness_command(Brightness::Medium),
        [0x05, 0x00, 0x3d, 0x03, 0x06, 0x00, 0x07, 0x00, 0x0d, 0x14, 0x03, 0x18, 0xad]
    );
    assert_eq!(brightness_command(Brightness::Off)[11], 0x00);
    assert_eq!(brightness_command(Brightness::Low)[11], 0x1f);
}

#[test]
fn normalization_bounds() {
    let x0 = normalize_x(100, 100, 1099);
    assert_eq!((x0.num, x0.den), (0, 1000));
    let x1 = normalize_x(1099, 100, 1099);
    assert_eq!((x1.num, x1.den), (999, 1000));
    assert!(x1.num < x1.den);
    let y0 = normalize_y(-50, -50, 950);
    assert_eq!(y0.num, 0);
    let y1 = normalize_y(950, -50, 950);
    assert_eq!(y1.num, y1.den);
    let mid = normalize_y(450, -50, 950);
    assert_eq!((mid.num, mid.den), (500, 1000));
}

#[test]
fn normalization_in_unit_range() {
    for v in 0..=40 {
        let x = normalize_x(v, 0, 40);
        let y = normalize_y(v, 0, 40);
        assert!(0 <= x.num && x.num < x.den);
        assert!(0 <= y.num && y.num <= y.den);
    }
}

#[test]
fn zone_classification() {
    assert_eq!(at(frac(90, 100), frac(10, 100)).corner(), Corner::TopRight);
    assert_eq!(at(frac(2, 100), frac(2, 100)).corner(), Corner::TopLeft);
    assert_eq!(at(frac(50, 100), frac(50, 100)).corner(), Corner::Grid);
    assert_eq!(at(frac(80, 100), frac(10, 100)).corner(), Corner::Grid);
    assert_eq!(at(frac(90, 100), frac(25, 100)).corner(), Corner::Grid);
    assert_eq!(at(frac(6, 100), frac(1, 100)).corner(), Corner::Grid);
}

#[test]
fn grid_mapping() {
    let l = layout();
    let g = l.geometry();
    assert_eq!((g.rows, g.cols, g.top_offset.num, g.top_offset.den), (4, 5, 1, 10));
    assert_eq!(cell_of(at(frac(1, 2), frac(1, 2)), l.geometry()), Some((1, 2)));
    assert_eq!(cell_of(at(frac(0, 1), frac(0, 1)), l.geometry()), None);
    assert_eq!(cell_of(at(frac(1, 1), frac(1, 2)), l.geometry()), None);
    assert_eq!(cell_of(at(frac(-1, 10), frac(1, 2)), l.geometry()), None);
    assert_eq!(cell_of(at(frac(99, 100), frac(99, 100)), l.geometry()), Some((3, 4)));
    assert_eq!(state_at(frac(1, 2), frac(1, 2)).grid_position(&l), Some((1, 2)));
}

#[test]
fn layout_keys() {
    let l = G634jyLayout::new();
    assert_eq!(l.key_at(0, 0), Some(KeyCode(KEY_KP7)));
    assert_eq!(l.key_at(1, 2), Some(KeyCode(KEY_KP6)));
    assert_eq!(l.key_at(3, 1), Some(KeyCode(KEY_KP0)));
    assert_eq!(l.key_at(3, 4), Some(KeyCode(KEY_KPENTER)));
    assert_eq!(l.key_at(4, 0), None);
    assert_eq!(l.key_at(0, 5), None);
    assert_eq!(l.all_keys().len(), 17);
    assert_eq!(layout().name(), "g634jy");
    assert_eq!(layout().try_times(), 5);
    assert_eq!(layout().try_sleep_ms(), 100);
}

#[test]
fn layout_lookup() {
    assert!(get_layout("G634JY").is_ok());
    assert!(get_layout("g634jyr").is_ok());
    match get_layout("X13") {
        Err(DriverError::LayoutNotFound(n)) => assert_eq!(n, "X13"),
        _ => panic!("expected an unknown layout"),
    }
}

#[test]
fn toggle_mode_on_and_off() {
    let l = layout();
    let pct = KeyCode(6);
    let mut s = state_at(frac(90, 100), frac(10, 100));
    let a = s.handle_finger_event(1, &l, pct);
    assert_eq!(a, vec![Action::Grab, Action::Numlock(true), Action::Backlight(Brightness::High)]);
    assert!(s.enabled);
    assert_eq!(s.handle_finger_event(0, &l, pct), vec![]);
    let a = s.handle_finger_event(1, &l, pct);
    assert_eq!(
        a,
        vec![Action::Ungrab, Action::Numlock(false), Action::Backlight(Brightness::Off)]
    );
    assert!(!s.enabled);
    assert_eq!(s.brightness, Brightness::High);
}

#[test]
fn top_left_cycles_brightness_when_enabled() {
    let l = layout();
    let pct = KeyCode(6);
    let mut s = state_at(frac(2, 100), frac(2, 100));
    s.enabled = true;
    assert_eq!(s.handle_finger_event(1, &l, pct), vec![Action::Backlight(Brightness::Low)]);
    assert_eq!(s.handle_finger_event(1, &l, pct), vec![Action::Backlight(Brightness::Medium)]);
    assert_eq!(s.handle_finger_event(1, &l, pct), vec![Action::Backlight(Brightness::High)]);
    assert_eq!(s.pressed_key, None);
}

#[test]
fn top_left_taps_calculator_when_disabled() {
    let l = layout();
    let mut s = state_at(frac(2, 100), frac(2, 100));
    let a = s.handle_finger_event(1, &l, KeyCode(6));
    assert_eq!(a, vec![Action::Press(KeyCode(KEY_CALC)), Action::Release(KeyCode(KEY_CALC))]);
    assert_eq!(s.pressed_key, None);
    assert!(!s.enabled);
}

#[test]
fn grid_press_and_release() {
    let l = layout();
    let pct = KeyCode(6);
    let mut s = state_at(frac(1, 2), frac(1, 2));
    assert_eq!(s.handle_finger_event(1, &l, pct), vec![]);
    s.enabled = true;
    assert_eq!(s.handle_finger_event(1, &l, pct), vec![Action::Press(KeyCode(KEY_KP6))]);
    assert_eq!(s.pressed_key, Some(KeyCode(KEY_KP6)));
    assert_eq!(s.handle_finger_event(0, &l, pct), vec![Action::Release(KeyCode(KEY_KP6))]);
    assert_eq!(s.pressed_key, None);
    assert_eq!(s.handle_finger_event(0, &l, pct), vec![]);
}

#[test]
fn second_finger_down_is_ignored() {
    let l = layout();
    let pct = KeyCode(6);
    let mut s = state_at(frac(1, 2), frac(1, 2));
    s.enabled = true;
    assert_eq!(s.handle_finger_event(1, &l, pct).len(), 1);
    let before = s;
    s.current_position = at(frac(90, 100), frac(10, 100));
    let after_move = s;
    assert_eq!(s.handle_finger_event(1, &l, pct), vec![]);
    assert_eq!(s, after_move);
    assert_eq!(s.pressed_key, before.pressed_key);
    assert_eq!(s.enabled, before.enabled);
    assert_eq!(s.brightness, before.brightness);
}

#[test]
fn dead_zone_press_does_nothing() {
    let l = layout();
    let mut s = state_at(frac(50, 100), frac(1, 100));
    s.enabled = true;
    assert_eq!(s.handle_finger_event(1, &l, KeyCode(6)), vec![]);
    assert_eq!(s.pressed_key, None);
}

#[test]
fn reserved_key_becomes_percentage_key() {
    let pct = KeyCode(22);
    assert_eq!(resolve_key(KeyCode(KEY_5), pct), pct);
    assert_eq!(resolve_key(KeyCode(KEY_KP7), pct), KeyCode(KEY_KP7));
    let l = layout();
    let mut s = NumpadState::new();
    s.pressed_key = Some(pct);
    assert_eq!(s.handle_finger_event(0, &l, pct), vec![Action::ReleaseWithShift(pct)]);
    assert_eq!(s.pressed_key, None);
}

#[test]
fn percentage_key_in_grid_is_pressed_with_shift() {
    let l = layout();
    let pct = KeyCode(KEY_KP6);
    let mut s = state_at(frac(1, 2), frac(1, 2));
    s.enabled = true;
    assert_eq!(s.handle_finger_event(1, &l, pct), vec![Action::PressWithShift(pct)]);
    assert_eq!(s.handle_finger_event(0, &l, pct), vec![Action::ReleaseWithShift(pct)]);
}

#[test]
fn raw_events_drive_the_keypad() {
    let l = layout();
    let pct = KeyCode(6);
    let bounds = TouchpadBounds { min_x: 0, max_x: 999, min_y: 0, max_y: 1000 };
    let mut s = NumpadState::new();
    assert_eq!(s.process_event(EV_ABS, ABS_MT_POSITION_X, 950, bounds, &l, pct), vec![]);
    assert_eq!(s.process_event(EV_ABS, ABS_MT_POSITION_Y, 50, bounds, &l, pct), vec![]);
    assert_eq!(s.current_position.x, frac(950, 1000));
    assert_eq!(s.current_position.y, frac(50, 1000));
    assert_eq!(s.process_event(EV_ABS, 0, 10, bounds, &l, pct), vec![]);
    assert_eq!(s.process_event(EV_KEY, 330, 1, bounds, &l, pct), vec![]);
    let a = s.process_event(EV_KEY, BTN_TOOL_FINGER, 1, bounds, &l, pct);
    assert_eq!(a, vec![Action::Grab, Action::Numlock(true), Action::Backlight(Brightness::High)]);
    assert!(s.enabled);
}
