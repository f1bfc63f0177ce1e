use vstd::prelude::*;
use crate::error::DriverError;
use crate::position::Fraction;

verus! {

/// A key as the input subsystem numbers it.
#[derive(Debug, Clone, Copy, PartialEq, Eq, Hash, Structural)]
pub struct KeyCode(pub u16);

pub const KEY_5: u16 = 6;
pub const KEY_BACKSPACE: u16 = 14;
pub const KEY_LEFTSHIFT: u16 = 42;
pub const KEY_KPASTERISK: u16 = 55;
pub const KEY_NUMLOCK: u16 = 69;
pub const KEY_KP7: u16 = 71;
pub const KEY_KP8: u16 = 72;
pub const KEY_KP9: u16 = 73;
pub const KEY_KPMINUS: u16 = 74;
pub const KEY_KP4: u16 = 75;
pub const KEY_KP5: u16 = 76;
pub const KEY_KP6: u16 = 77;
pub const KEY_KPPLUS: u16 = 78;
pub const KEY_KP1: u16 = 79;
pub const KEY_KP2: u16 = 80;
pub const KEY_KP3: u16 = 81;
pub const KEY_KP0: u16 = 82;
pub const KEY_KPDOT: u16 = 83;
pub const KEY_KPENTER: u16 = 96;
pub const KEY_KPSLASH: u16 = 98;
pub const KEY_CALC: u16 = 140;
/// The contact-presence channel of a touchpad.
pub const BTN_TOOL_FINGER: u16 = 0x145;

/// The key grid of the G634JY keypad, top row first.
pub open spec fn g634jy_keys() -> Seq<Seq<u16>> {
    seq![
        seq![KEY_KP7, KEY_KP8, KEY_KP9, KEY_KPSLASH, KEY_BACKSPACE],
        seq![KEY_KP4, KEY_KP5, KEY_KP6, KEY_KPASTERISK, KEY_BACKSPACE],
        seq![KEY_KP1, KEY_KP2, KEY_KP3, KEY_KPMINUS, KEY_KPENTER],
        seq![KEY_KP0, KEY_KP0, KEY_KPDOT, KEY_KPPLUS, KEY_KPENTER],
    ]
}

/// Every key the G634JY keypad can emit.
pub open spec fn g634jy_all_keys() -> Seq<u16> {
    seq![
        KEY_KP0, KEY_KP1, KEY_KP2, KEY_KP3, KEY_KP4, KEY_KP5, KEY_KP6, KEY_KP7, KEY_KP8,
        KEY_KP9, KEY_KPDOT, KEY_KPENTER, KEY_KPPLUS, KEY_KPMINUS, KEY_KPASTERISK, KEY_KPSLASH,
        KEY_BACKSPACE,
    ]
}

/// The key of a grid table at a cell, if the cell is in the table.
pub open spec fn table_key(table: Seq<Seq<u16>>, row: int, col: int) -> Option<KeyCode> {
    if 0 <= row < table.len() && 0 <= col < table[row].len() {
        Some(KeyCode(table[row][col]))
    } else {
        None
    }
}

/// The layout of the ROG Strix SCAR 16 G634JY / G634JYR keypad.
pub struct G634jyLayout {
    keys: [[u16; 5]; 4],
}

impl G634jyLayout {
    /// The stored grid is the G634JY table.
    pub closed spec fn wf(&self) -> bool {
        forall|r: int| 0 <= r < 4 ==> #[trigger] self.keys@[r]@ == g634jy_keys()[r]
    }

    pub fn new() -> (r: G634jyLayout)
        ensures
            r.wf(),
    {
        let r = G634jyLayout {
            keys: [
                [KEY_KP7, KEY_KP8, KEY_KP9, KEY_KPSLASH, KEY_BACKSPACE],
                [KEY_KP4, KEY_KP5, KEY_KP6, KEY_KPASTERISK, KEY_BACKSPACE],
                [KEY_KP1, KEY_KP2, KEY_KP3, KEY_KPMINUS, KEY_KPENTER],
                [KEY_KP0, KEY_KP0, KEY_KPDOT, KEY_KPPLUS, KEY_KPENTER],
            ],
        };
        assert(r.keys@[0]@ =~= g634jy_keys()[0]);
        assert(r.keys@[1]@ =~= g634jy_keys()[1]);
        assert(r.keys@[2]@ =~= g634jy_keys()[2]);
        assert(r.keys@[3]@ =~= g634jy_keys()[3]);
        r
    }

    /// The key at a grid cell, or nothing outside the 4 by 5 grid.
    pub fn key_at(&self, row: u32, col: u32) -> (r: Option<KeyCode>)
        requires
            self.wf(),
        ensures
            r == table_key(g634jy_keys(), row as int, col as int),
    {
        if row < 4 && col < 5 {
            let line: [u16; 5] = self.keys[row as usize];
            assert(line@ == g634jy_keys()[row as int]);
            Some(KeyCode(line[col as usize]))
        } else {
            None
        }
    }

    /// Every key this layout can emit.
    pub fn all_keys(&self) -> (r: Vec<KeyCode>)
        ensures
            r@ == g634jy_all_keys().map_values(|k: u16| KeyCode(k)),
    {
        let mut r: Vec<KeyCode> = Vec::new();
        r.push(KeyCode(KEY_KP0));
        r.push(KeyCode(KEY_KP1));
        r.push(KeyCode(KEY_KP2));
        r.push(KeyCode(KEY_KP3));
        r.push(KeyCode(KEY_KP4));
        r.push(KeyCode(KEY_KP5));
        r.push(KeyCode(KEY_KP6));
        r.push(KeyCode(KEY_KP7));
        r.push(KeyCode(KEY_KP8));
        r.push(KeyCode(KEY_KP9));
        r.push(KeyCode(KEY_KPDOT));
        r.push(KeyCode(KEY_KPENTER));
        r.push(KeyCode(KEY_KPPLUS));
        r.push(KeyCode(KEY_KPMINUS));
        r.push(KeyCode(KEY_KPASTERISK));
        r.push(KeyCode(KEY_KPSLASH));
        r.push(KeyCode(KEY_BACKSPACE));
        assert(r@ =~= g634jy_all_keys().map_values(|k: u16| KeyCode(k)));
        r
    }
}

impl Default for G634jyLayout {
    fn default() -> (r: G634jyLayout)
        ensures
            r.wf(),
    {
        G634jyLayout::new()
    }
}

/// The known keypad layouts.
pub enum NumpadLayout {
    G634jy(G634jyLayout),
}

/// The geometry of a layout's key grid.
#[derive(Debug, Clone, Copy, PartialEq, Eq, Structural)]
pub struct LayoutGeometry {
    pub rows: u32,
    pub cols: u32,
    /// The part of the height, as a fraction of one row, kept free above the grid.
    pub top_offset: Fraction,
}

impl LayoutGeometry {
    pub open spec fn wf(self) -> bool {
        self.rows > 0 && self.cols > 0 && self.top_offset.wf() && 0 <= self.top_offset.num
            < self.top_offset.den
    }
}

impl NumpadLayout {
    pub open spec fn wf(&self) -> bool {
        match self {
            NumpadLayout::G634jy(l) => l.wf(),
        }
    }

    /// The key grid of this layout, top row first.
    pub open spec fn key_table(&self) -> Seq<Seq<u16>> {
        match self {
            NumpadLayout::G634jy(_) => g634jy_keys(),
        }
    }

    /// The keys this layout can emit.
    pub open spec fn key_set(&self) -> Seq<u16> {
        match self {
            NumpadLayout::G634jy(_) => g634jy_all_keys(),
        }
    }

    /// The grid geometry of this layout.
    pub open spec fn spec_geometry(&self) -> LayoutGeometry {
        match self {
            NumpadLayout::G634jy(_) => LayoutGeometry {
                rows: 4,
                cols: 5,
                top_offset: Fraction { num: 1, den: 10 },
            },
        }
    }

    /// The layout's identifier.
    pub fn name(&self) -> (r: &'static str)
        ensures
            r@ == self.spec_name(),
    {
        match self {
            NumpadLayout::G634jy(_) => {
                proof {
                    reveal_strlit("g634jy");
                    assert("g634jy"@ =~= seq!['g', '6', '3', '4', 'j', 'y']);
                }
                "g634jy"
            },
        }
    }

    pub open spec fn spec_name(&self) -> Seq<char> {
        match self {
            NumpadLayout::G634jy(_) => seq!['g', '6', '3', '4', 'j', 'y'],
        }
    }

    pub fn cols(&self) -> (r: u32)
        ensures
            r == self.spec_geometry().cols,
    {
        match self {
            NumpadLayout::G634jy(_) => 5,
        }
    }

    pub fn rows(&self) -> (r: u32)
        ensures
            r == self.spec_geometry().rows,
    {
        match self {
            NumpadLayout::G634jy(_) => 4,
        }
    }

    /// Height kept free above the grid, as a fraction of the surface.
    pub fn top_offset(&self) -> (r: Fraction)
        ensures
            r == self.spec_geometry().top_offset,
    {
        match self {
            NumpadLayout::G634jy(_) => Fraction { num: 1, den: 10 },
        }
    }

    /// The whole grid geometry.
    pub fn geometry(&self) -> (r: LayoutGeometry)
        ensures
            r == self.spec_geometry(),
            r.wf(),
    {
        LayoutGeometry { rows: self.rows(), cols: self.cols(), top_offset: self.top_offset() }
    }

    /// The key at a grid cell, if the cell is in the layout.
    pub fn key_at(&self, row: u32, col: u32) -> (r: Option<KeyCode>)
        requires
            self.wf(),
        ensures
            r == table_key(self.key_table(), row as int, col as int),
    {
        match self {
            NumpadLayout::G634jy(l) => l.key_at(row, col),
        }
    }

    /// Every key this layout can emit.
    pub fn all_keys(&self) -> (r: Vec<KeyCode>)
        ensures
            r@ == self.key_set().map_values(|k: u16| KeyCode(k)),
    {
        match self {
            NumpadLayout::G634jy(l) => l.all_keys(),
        }
    }

    /// Number of device detection attempts.
    pub fn try_times(&self) -> (r: u32)
        ensures
            r == 5,
    {
        5
    }

    /// Pause between device detection attempts, in milliseconds.
    pub fn try_sleep_ms(&self) -> (r: u64)
        ensures
            r == 100,
    {
        100
    }
}

/// Whether `s` names a known layout, in lower case.
pub open spec fn is_g634jy_name(s: Seq<char>) -> bool {
    s == seq!['g', '6', '3', '4', 'j', 'y'] || s == seq!['g', '6', '3', '4', 'j', 'y', 'r']
}

/// What `str::to_lowercase` makes of a text.
pub uninterp spec fn lower_of(s: Seq<char>) -> Seq<char>;

/// Relies on `str::to_lowercase`: its result depends on the characters alone.
#[verifier::external_body]
fn lowercase(s: &str) -> (r: String)
    ensures
        r@ == lower_of(s@),
{
    s.to_lowercase()
}

/// The layout with a lower-case name, if there is one.
pub fn layout_named(lower: &str) -> (r: Option<NumpadLayout>)
    ensures
        r is Some <==> is_g634jy_name(lower@),
        r matches Some(l) ==> l.wf() && l is G634jy,
{
    proof {
        reveal_strlit("g634jy");
        reveal_strlit("g634jyr");
        assert("g634jy"@ =~= seq!['g', '6', '3', '4', 'j', 'y']);
        assert("g634jyr"@ =~= seq!['g', '6', '3', '4', 'j', 'y', 'r']);
    }
    let s = String::from_str(lower);
    let a = String::from_str("g634jy");
    let b = String::from_str("g634jyr");
    if s == a || s == b {
        Some(NumpadLayout::G634jy(G634jyLayout::new()))
    } else {
        None
    }
}

/// Looks a layout up by name, ignoring case.
pub fn get_layout(name: &str) -> (r: Result<NumpadLayout, DriverError>)
    ensures
        r is Ok <==> is_g634jy_name(lower_of(name@)),
        r matches Ok(l) ==> l.wf() && l is G634jy,
        r matches Err(e) ==> e matches DriverError::LayoutNotFound(n) && n@ == name@,
{
    let lower = lowercase(name);
    match layout_named(lower.as_str()) {
        Some(l) => Ok(l),
        None => Err(DriverError::LayoutNotFound(String::from_str(name))),
    }
}

} // verus!
