use vstd::prelude::*;

verus! {

/// An exact rational number `num / den`; a position component of the touch surface.
#[derive(Debug, Clone, Copy, PartialEq, Eq, Structural)]
pub struct Fraction {
    pub num: i64,
    pub den: i64,
}

impl Fraction {
    /// A usable fraction has a positive denominator.
    pub open spec fn wf(self) -> bool {
        self.den > 0
    }

    /// A component small enough for exact grid arithmetic: what a 32-bit
    /// sample normalizes to.
    pub open spec fn bounded(self) -> bool {
        -0x2_0000_0000 <= self.num <= 0x2_0000_0000 && 0 < self.den <= 0x2_0000_0000
    }

    /// `self < p / q` for a positive `q`.
    pub open spec fn lt_ratio(self, p: int, q: int) -> bool {
        self.num * q < p * self.den
    }

    /// `self > p / q` for a positive `q`.
    pub open spec fn gt_ratio(self, p: int, q: int) -> bool {
        self.num * q > p * self.den
    }
}

/// The reported range of the touchpad's two position axes.
#[derive(Debug, Clone, Copy, PartialEq, Eq, Structural)]
pub struct TouchpadBounds {
    pub min_x: i32,
    pub max_x: i32,
    pub min_y: i32,
    pub max_y: i32,
}

impl TouchpadBounds {
    /// Bounds on which both normalizing formulas have a positive denominator.
    pub open spec fn wf(self) -> bool {
        self.min_x <= self.max_x && self.min_y < self.max_y
    }
}

/// Horizontal position of raw sample `v`: `(v - min) / (max - min + 1)`.
pub open spec fn normalized_x(v: int, min: int, max: int) -> Fraction {
    Fraction { num: (v - min) as i64, den: (max - min + 1) as i64 }
}

/// Vertical position of raw sample `v`: `(v - min) / (max - min)`.
pub open spec fn normalized_y(v: int, min: int, max: int) -> Fraction {
    Fraction { num: (v - min) as i64, den: (max - min) as i64 }
}

/// Maps a raw horizontal sample into the unit interval.
pub fn normalize_x(value: i32, min_x: i32, max_x: i32) -> (r: Fraction)
    requires
        min_x <= max_x,
    ensures
        r == normalized_x(value as int, min_x as int, max_x as int),
        r.wf(),
        r.bounded(),
        r.num == value - min_x,
        r.den == max_x - min_x + 1,
{
    Fraction { num: value as i64 - min_x as i64, den: max_x as i64 - min_x as i64 + 1 }
}

/// Maps a raw vertical sample into the unit interval.
pub fn normalize_y(value: i32, min_y: i32, max_y: i32) -> (r: Fraction)
    requires
        min_y < max_y,
    ensures
        r == normalized_y(value as int, min_y as int, max_y as int),
        r.wf(),
        r.bounded(),
        r.num == value - min_y,
        r.den == max_y - min_y,
{
    Fraction { num: value as i64 - min_y as i64, den: max_y as i64 - min_y as i64 }
}

/// A raw sample within its axis range normalizes into [0, 1]; the lower
/// bound gives 0 on both axes, the upper bound gives exactly 1 vertically
/// and strictly less than 1 horizontally.
pub proof fn lemma_normalized_in_unit_range(v: i32, min: i32, max: i32)
    requires
        min <= v <= max,
    ensures
        0 <= normalized_x(v as int, min as int, max as int).num
            <= normalized_x(v as int, min as int, max as int).den,
        normalized_x(v as int, min as int, max as int).num
            < normalized_x(v as int, min as int, max as int).den,
        v == min ==> normalized_x(v as int, min as int, max as int).num == 0,
        min < max ==> 0 <= normalized_y(v as int, min as int, max as int).num
            <= normalized_y(v as int, min as int, max as int).den,
        min < max && v == min ==> normalized_y(v as int, min as int, max as int).num == 0,
        min < max && v == max ==> normalized_y(v as int, min as int, max as int).num
            == normalized_y(v as int, min as int, max as int).den,
{
}

/// Functional zones of the touch surface.
#[derive(Debug, Clone, Copy, PartialEq, Eq, Structural)]
pub enum Corner {
    /// The mode toggle.
    TopRight,
    /// Calculator launch, or brightness while the keypad is active.
    TopLeft,
    /// The keypad grid area.
    Grid,
}

/// Normalized position of the current contact.
#[derive(Debug, Clone, Copy, PartialEq, Eq, Structural)]
pub struct TouchPosition {
    pub x: Fraction,
    pub y: Fraction,
}

/// The zone of a position: x > 0.80 and y < 0.25 is the top right corner;
/// otherwise x < 0.06 and y < 0.07 is the top left corner; else the grid area.
pub open spec fn corner_of(p: TouchPosition) -> Corner {
    if p.x.gt_ratio(80, 100) && p.y.lt_ratio(25, 100) {
        Corner::TopRight
    } else if p.x.lt_ratio(6, 100) && p.y.lt_ratio(7, 100) {
        Corner::TopLeft
    } else {
        Corner::Grid
    }
}

impl TouchPosition {
    pub open spec fn wf(self) -> bool {
        self.x.bounded() && self.y.bounded()
    }

    /// The origin of the surface.
    pub fn origin() -> (r: TouchPosition)
        ensures
            r.wf(),
            r.x == (Fraction { num: 0, den: 1 }),
            r.y == (Fraction { num: 0, den: 1 }),
    {
        TouchPosition { x: Fraction { num: 0, den: 1 }, y: Fraction { num: 0, den: 1 } }
    }

    /// The zone this position falls in.
    pub fn corner(&self) -> (r: Corner)
        requires
            self.wf(),
        ensures
            r == corner_of(*self),
    {
        let x = self.x.num as i128;
        let xd = self.x.den as i128;
        let y = self.y.num as i128;
        let yd = self.y.den as i128;
        if x * 100 > 80 * xd && y * 100 < 25 * yd {
            Corner::TopRight
        } else if x * 100 < 6 * xd && y * 100 < 7 * yd {
            Corner::TopLeft
        } else {
            Corner::Grid
        }
    }
}

} // verus!
