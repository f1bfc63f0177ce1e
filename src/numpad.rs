use vstd::prelude::*;
use crate::backlight::{Brightness, next_brightness};
use crate::layout::{
    KeyCode, LayoutGeometry, NumpadLayout, table_key, BTN_TOOL_FINGER, KEY_5, KEY_CALC,
};
use crate::position::{
    Fraction, corner_of, normalize_x, normalize_y, normalized_x, normalized_y, Corner, TouchPosition,
    TouchpadBounds,
};

verus! {

/// Event type of key and button events.
pub const EV_KEY: u16 = 1;
/// Event type of absolute axis events.
pub const EV_ABS: u16 = 3;
/// Axis code of the horizontal contact position.
pub const ABS_MT_POSITION_X: u16 = 0x35;
/// Axis code of the vertical contact position.
pub const ABS_MT_POSITION_Y: u16 = 0x36;

/// An effect that the keypad asks of the outside world, in order.
#[derive(Debug, Clone, Copy, PartialEq, Eq, Structural)]
pub enum Action {
    /// Take exclusive ownership of the touch source.
    Grab,
    /// Give exclusive ownership of the touch source back.
    Ungrab,
    /// Set the numlock indicator.
    Numlock(bool),
    /// Send a level to the backlight; a failure here is only reported.
    Backlight(Brightness),
    Press(KeyCode),
    Release(KeyCode),
    /// Press a key while a shift key is held.
    PressWithShift(KeyCode),
    /// Release a key together with the held shift key.
    ReleaseWithShift(KeyCode),
}

/// The keypad's state.
#[derive(Debug, Clone, Copy, PartialEq, Eq, Structural)]
pub struct NumpadState {
    /// Whether keypad mode is on.
    pub enabled: bool,
    pub brightness: Brightness,
    pub current_position: TouchPosition,
    /// The synthesized key that is held, if any.
    pub pressed_key: Option<KeyCode>,
}

/// The grid cell `(row, col)` of a position: `col = floor(cols * x)` and
/// `row = floor(rows * y - top_offset)`, none in the band above the grid or
/// outside it.
pub open spec fn grid_cell(p: TouchPosition, g: LayoutGeometry) -> Option<(u32, u32)> {
    let col = (g.cols * p.x.num) / (p.x.den as int);
    let row_num = g.rows * p.y.num * g.top_offset.den - g.top_offset.num * p.y.den;
    let row_den = p.y.den * g.top_offset.den;
    if row_num < 0 {
        None
    } else if 0 <= col < g.cols && row_num / row_den < g.rows {
        Some(((row_num / row_den) as u32, col as u32))
    } else {
        None
    }
}

/// A layout key with the reserved base key replaced by the percentage key.
pub open spec fn resolved_key(k: KeyCode, percentage_key: KeyCode) -> KeyCode {
    if k.0 == KEY_5 {
        percentage_key
    } else {
        k
    }
}

/// The action that presses `k`: with shift exactly for the percentage key.
pub open spec fn press_action(k: KeyCode, percentage_key: KeyCode) -> Action {
    if k == percentage_key {
        Action::PressWithShift(k)
    } else {
        Action::Press(k)
    }
}

/// The action that releases `k`: with shift exactly for the percentage key.
pub open spec fn release_action(k: KeyCode, percentage_key: KeyCode) -> Action {
    if k == percentage_key {
        Action::ReleaseWithShift(k)
    } else {
        Action::Release(k)
    }
}

/// The next state and the actions after the contact channel reports `value`
/// (1 down, 0 up) on a layout with geometry `g` and key grid `table`.
pub open spec fn finger_step(
    s: NumpadState,
    value: int,
    g: LayoutGeometry,
    table: Seq<Seq<u16>>,
    percentage_key: KeyCode,
) -> (NumpadState, Seq<Action>) {
    if value == 0 {
        match s.pressed_key {
            Some(k) => (
                NumpadState { pressed_key: None, ..s },
                seq![release_action(k, percentage_key)],
            ),
            None => (s, seq![]),
        }
    } else if value == 1 && s.pressed_key is None {
        match corner_of(s.current_position) {
            Corner::TopRight => if !s.enabled {
                (
                    NumpadState { enabled: true, ..s },
                    seq![Action::Grab, Action::Numlock(true), Action::Backlight(s.brightness)],
                )
            } else {
                (
                    NumpadState { enabled: false, ..s },
                    seq![Action::Ungrab, Action::Numlock(false), Action::Backlight(Brightness::Off)],
                )
            },
            Corner::TopLeft => if s.enabled {
                let b = next_brightness(s.brightness);
                (NumpadState { brightness: b, ..s }, seq![Action::Backlight(b)])
            } else {
                (s, seq![Action::Press(KeyCode(KEY_CALC)), Action::Release(KeyCode(KEY_CALC))])
            },
            Corner::Grid => if s.enabled {
                match grid_cell(s.current_position, g) {
                    Some((row, col)) => match table_key(table, row as int, col as int) {
                        Some(k) => {
                            let key = resolved_key(k, percentage_key);
                            (
                                NumpadState { pressed_key: Some(key), ..s },
                                seq![press_action(key, percentage_key)],
                            )
                        },
                        None => (s, seq![]),
                    },
                    None => (s, seq![]),
                }
            } else {
                (s, seq![])
            },
        }
    } else {
        (s, seq![])
    }
}

impl NumpadState {
    pub open spec fn wf(&self) -> bool {
        self.current_position.wf()
    }

    /// Keypad mode off, full brightness, contact at the origin, no key held.
    pub fn new() -> (r: NumpadState)
        ensures
            r.wf(),
            !r.enabled,
            r.brightness == Brightness::High,
            r.current_position.x == (Fraction { num: 0, den: 1 }),
            r.current_position.y == (Fraction { num: 0, den: 1 }),
            r.pressed_key is None,
    {
        NumpadState {
            enabled: false,
            brightness: Brightness::High,
            current_position: TouchPosition::origin(),
            pressed_key: None,
        }
    }

    /// Takes a raw horizontal sample.
    pub fn update_x(&mut self, value: i32, min_x: i32, max_x: i32)
        requires
            min_x <= max_x,
        ensures
            *final(self) == (NumpadState {
                current_position: TouchPosition {
                    x: normalized_x(value as int, min_x as int, max_x as int),
                    ..old(self).current_position
                },
                ..*old(self)
            }),
            old(self).wf() ==> final(self).wf(),
    {
        self.current_position.x = normalize_x(value, min_x, max_x);
    }

    /// Takes a raw vertical sample.
    pub fn update_y(&mut self, value: i32, min_y: i32, max_y: i32)
        requires
            min_y < max_y,
        ensures
            *final(self) == (NumpadState {
                current_position: TouchPosition {
                    y: normalized_y(value as int, min_y as int, max_y as int),
                    ..old(self).current_position
                },
                ..*old(self)
            }),
            old(self).wf() ==> final(self).wf(),
    {
        self.current_position.y = normalize_y(value, min_y, max_y);
    }

    /// The grid cell under the current position.
    pub fn grid_position(&self, layout: &NumpadLayout) -> (r: Option<(u32, u32)>)
        requires
            self.wf(),
        ensures
            r == grid_cell(self.current_position, layout.spec_geometry()),
    {
        cell_of(self.current_position, layout.geometry())
    }

    /// Moves the brightness one step along its cycle.
    pub fn cycle_brightness(&mut self)
        ensures
            *final(self) == (NumpadState { brightness: next_brightness(old(self).brightness), ..*old(self) }),
    {
        self.brightness = self.brightness.next();
    }
}

impl NumpadState {
    /// Reacts to the contact channel reporting `value` (1 down, 0 up).
    /// Lifting the finger releases the held key. Putting it down on the top
    /// right corner toggles keypad mode; on the top left corner it cycles
    /// the brightness while the keypad is on and taps the calculator key
    /// otherwise; on the grid, while the keypad is on, it presses the key of
    /// the cell. A finger-down while a key is held does nothing.
    pub fn handle_finger_event(
        &mut self,
        value: i32,
        layout: &NumpadLayout,
        percentage_key: KeyCode,
    ) -> (r: Vec<Action>)
        requires
            old(self).wf(),
            layout.wf(),
        ensures
            (*final(self), r@) == finger_step(
                *old(self),
                value as int,
                layout.spec_geometry(),
                layout.key_table(),
                percentage_key,
            ),
            final(self).wf(),
    {
        let mut actions: Vec<Action> = Vec::new();
        if value == 0 {
            if let Some(key) = self.pressed_key {
                self.pressed_key = None;
                actions.push(release_of(key, percentage_key));
            }
        } else if value == 1 && self.pressed_key.is_none() {
            match self.current_position.corner() {
                Corner::TopRight => {
                    self.enabled = !self.enabled;
                    if self.enabled {
                        actions.push(Action::Grab);
                        actions.push(Action::Numlock(true));
                        actions.push(Action::Backlight(self.brightness));
                    } else {
                        actions.push(Action::Ungrab);
                        actions.push(Action::Numlock(false));
                        actions.push(Action::Backlight(Brightness::Off));
                    }
                },
                Corner::TopLeft => {
                    if self.enabled {
                        self.cycle_brightness();
                        actions.push(Action::Backlight(self.brightness));
                    } else {
                        actions.push(Action::Press(KeyCode(KEY_CALC)));
                        actions.push(Action::Release(KeyCode(KEY_CALC)));
                    }
                },
                Corner::Grid => {
                    if self.enabled {
                        if let Some((row, col)) = self.grid_position(layout) {
                            if let Some(k) = layout.key_at(row, col) {
                                let key = resolve_key(k, percentage_key);
                                actions.push(press_of(key, percentage_key));
                                self.pressed_key = Some(key);
                            }
                        }
                    }
                },
            }
        }
        assert(actions@ =~= finger_step(
            *old(self),
            value as int,
            layout.spec_geometry(),
            layout.key_table(),
            percentage_key,
        ).1);
        actions
    }

    /// Feeds one raw input event, of type `event_type` with `code` and
    /// `value`, to the keypad: a contact position sample moves the current
    /// position, a contact change drives `handle_finger_event`, and anything
    /// else is ignored.
    pub fn process_event(
        &mut self,
        event_type: u16,
        code: u16,
        value: i32,
        bounds: TouchpadBounds,
        layout: &NumpadLayout,
        percentage_key: KeyCode,
    ) -> (r: Vec<Action>)
        requires
            old(self).wf(),
            bounds.wf(),
            layout.wf(),
        ensures
            final(self).wf(),
            (*final(self), r@) == event_step(
                *old(self),
                event_type,
                code,
                value as int,
                bounds,
                layout.spec_geometry(),
                layout.key_table(),
                percentage_key,
            ),
    {
        if event_type == EV_ABS && code == ABS_MT_POSITION_X {
            self.update_x(value, bounds.min_x, bounds.max_x);
            Vec::new()
        } else if event_type == EV_ABS && code == ABS_MT_POSITION_Y {
            self.update_y(value, bounds.min_y, bounds.max_y);
            Vec::new()
        } else if event_type == EV_KEY && code == BTN_TOOL_FINGER {
            self.handle_finger_event(value, layout, percentage_key)
        } else {
            Vec::new()
        }
    }
}

/// The next state and the actions after one raw input event.
pub open spec fn event_step(
    s: NumpadState,
    event_type: u16,
    code: u16,
    value: int,
    bounds: TouchpadBounds,
    g: LayoutGeometry,
    table: Seq<Seq<u16>>,
    percentage_key: KeyCode,
) -> (NumpadState, Seq<Action>) {
    if event_type == EV_ABS && code == ABS_MT_POSITION_X {
        (
            NumpadState {
                current_position: TouchPosition {
                    x: normalized_x(value, bounds.min_x as int, bounds.max_x as int),
                    ..s.current_position
                },
                ..s
            },
            seq![],
        )
    } else if event_type == EV_ABS && code == ABS_MT_POSITION_Y {
        (
            NumpadState {
                current_position: TouchPosition {
                    y: normalized_y(value, bounds.min_y as int, bounds.max_y as int),
                    ..s.current_position
                },
                ..s
            },
            seq![],
        )
    } else if event_type == EV_KEY && code == BTN_TOOL_FINGER {
        finger_step(s, value, g, table, percentage_key)
    } else {
        (s, seq![])
    }
}

/// Replaces the reserved base key by the percentage key.
pub fn resolve_key(k: KeyCode, percentage_key: KeyCode) -> (r: KeyCode)
    ensures
        r == resolved_key(k, percentage_key),
{
    if k.0 == KEY_5 {
        percentage_key
    } else {
        k
    }
}

/// The action that presses `k`.
pub fn press_of(k: KeyCode, percentage_key: KeyCode) -> (r: Action)
    ensures
        r == press_action(k, percentage_key),
{
    if k == percentage_key {
        Action::PressWithShift(k)
    } else {
        Action::Press(k)
    }
}

/// The action that releases `k`.
pub fn release_of(k: KeyCode, percentage_key: KeyCode) -> (r: Action)
    ensures
        r == release_action(k, percentage_key),
{
    if k == percentage_key {
        Action::ReleaseWithShift(k)
    } else {
        Action::Release(k)
    }
}

/// A finger-down that follows a finger-down which left a key held, with no
/// finger-up between them, changes nothing and asks for nothing.
pub proof fn lemma_repeated_finger_down_ignored(
    s: NumpadState,
    g: LayoutGeometry,
    table: Seq<Seq<u16>>,
    percentage_key: KeyCode,
)
    requires
        finger_step(s, 1, g, table, percentage_key).0.pressed_key is Some,
    ensures
        ({
            let held = finger_step(s, 1, g, table, percentage_key).0;
            finger_step(held, 1, g, table, percentage_key) == (held, Seq::<Action>::empty())
        }),
{
}

/// A grid cell holding the reserved base key is pressed as the percentage
/// key, with shift, and the finger-up that follows releases it with shift.
pub proof fn lemma_percentage_key_substitution(
    s: NumpadState,
    g: LayoutGeometry,
    table: Seq<Seq<u16>>,
    percentage_key: KeyCode,
)
    requires
        s.enabled,
        s.pressed_key is None,
        corner_of(s.current_position) == Corner::Grid,
        grid_cell(s.current_position, g) matches Some((row, col)) && table_key(
            table,
            row as int,
            col as int,
        ) == Some(KeyCode(KEY_5)),
    ensures
        ({
            let (down, pressed) = finger_step(s, 1, g, table, percentage_key);
            let (up, released) = finger_step(down, 0, g, table, percentage_key);
            &&& down.pressed_key == Some(percentage_key)
            &&& pressed == seq![Action::PressWithShift(percentage_key)]
            &&& up.pressed_key is None
            &&& released == seq![Action::ReleaseWithShift(percentage_key)]
        }),
{
}

impl Default for NumpadState {
    fn default() -> (r: NumpadState)
        ensures
            r.wf(),
            !r.enabled,
            r.brightness == Brightness::High,
            r.pressed_key is None,
    {
        NumpadState::new()
    }
}

/// The grid cell of a position under a grid geometry.
pub fn cell_of(p: TouchPosition, g: LayoutGeometry) -> (r: Option<(u32, u32)>)
    requires
        p.wf(),
        g.wf(),
        g.top_offset.den <= 0x1_0000_0000,
    ensures
        r == grid_cell(p, g),
{
    let cols = g.cols as i128;
    let rows = g.rows as i128;
    let tn = g.top_offset.num as i128;
    let td = g.top_offset.den as i128;
    let xn = p.x.num as i128;
    let xd = p.x.den as i128;
    let yn = p.y.num as i128;
    let yd = p.y.den as i128;
    assert(-0x2_0000_0000_0000_0000 <= rows * yn <= 0x2_0000_0000_0000_0000) by (nonlinear_arith)
        requires 0 < rows <= 0x1_0000_0000, -0x2_0000_0000 <= yn <= 0x2_0000_0000;
    assert(-0x2_0000_0000_0000_0000_0000_0000 <= rows * yn * td <= 0x2_0000_0000_0000_0000_0000_0000) by (nonlinear_arith)
        requires -0x2_0000_0000_0000_0000 <= rows * yn <= 0x2_0000_0000_0000_0000, 0 < td <= 0x1_0000_0000;
    assert(0 <= tn * yd <= 0x2_0000_0000_0000_0000) by (nonlinear_arith)
        requires 0 <= tn < td <= 0x1_0000_0000, 0 < yd <= 0x2_0000_0000;
    assert(0 < yd * td <= 0x2_0000_0000_0000_0000) by (nonlinear_arith)
        requires 0 < td <= 0x1_0000_0000, 0 < yd <= 0x2_0000_0000;
    let row_num: i128 = rows * yn * td - tn * yd;
    let row_den: i128 = yd * td;
    if row_num < 0 {
        return None;
    }
    if xn < 0 {
        assert(cols * xn < 0) by (nonlinear_arith)
            requires cols > 0, xn < 0;
        assert((cols * xn) / (xd as int) < 0) by (nonlinear_arith)
            requires cols * xn < 0, xd > 0;
        return None;
    }
    assert(0 <= cols * xn <= 0x2_0000_0000_0000_0000) by (nonlinear_arith)
        requires 0 < cols <= 0x1_0000_0000, 0 <= xn <= 0x2_0000_0000;
    let col = ((cols * xn) as u128 / xd as u128) as i128;
    let row = (row_num as u128 / row_den as u128) as i128;
    if col < cols && row < rows {
        Some((row as u32, col as u32))
    } else {
        None
    }
}

} // verus!
