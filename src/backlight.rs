use vstd::prelude::*;

verus! {

/// Backlight levels of the touchpad, brightest to dimmest, plus off.
#[derive(Debug, Clone, Copy, PartialEq, Eq, Structural)]
pub enum Brightness {
    Off,
    High,
    Medium,
    Low,
}

/// The protocol byte that selects a brightness level.
pub open spec fn brightness_code(b: Brightness) -> u8 {
    match b {
        Brightness::Off => 0x00,
        Brightness::High => 0x01,
        Brightness::Medium => 0x18,
        Brightness::Low => 0x1f,
    }
}

/// The level that follows `b` when cycling; the cycle never reaches `Off`.
pub open spec fn next_brightness(b: Brightness) -> Brightness {
    match b {
        Brightness::Low => Brightness::Medium,
        Brightness::Medium => Brightness::High,
        Brightness::High => Brightness::Low,
        Brightness::Off => Brightness::Low,
    }
}

impl Brightness {
    /// The protocol byte for this level.
    pub fn as_byte(self) -> (r: u8)
        ensures
            r == brightness_code(self),
    {
        match self {
            Brightness::Off => 0x00,
            Brightness::High => 0x01,
            Brightness::Medium => 0x18,
            Brightness::Low => 0x1f,
        }
    }

    /// The next level of the cycle Low, Medium, High, Low.
    pub fn next(self) -> (r: Brightness)
        ensures
            r == next_brightness(self),
            r != Brightness::Off,
    {
        match self {
            Brightness::Low => Brightness::Medium,
            Brightness::Medium => Brightness::High,
            Brightness::High => Brightness::Low,
            Brightness::Off => Brightness::Low,
        }
    }
}

/// Cycling is a closed three-step loop through Low, Medium and High that
/// never produces Off.
pub proof fn lemma_brightness_cycle(b: Brightness)
    ensures
        next_brightness(Brightness::Low) == Brightness::Medium,
        next_brightness(Brightness::Medium) == Brightness::High,
        next_brightness(Brightness::High) == Brightness::Low,
        next_brightness(b) != Brightness::Off,
        b != Brightness::Off ==> next_brightness(next_brightness(next_brightness(b))) == b,
{
}

/// The fixed command that sets the backlight to the level with code `code`.
pub open spec fn command_bytes(code: u8) -> Seq<u8> {
    seq![0x05u8, 0x00, 0x3d, 0x03, 0x06, 0x00, 0x07, 0x00, 0x0d, 0x14, 0x03, code, 0xad]
}

/// Encodes the bus command that sets the backlight to `b`: a constant
/// header, the level's code, and a constant trailer byte.
pub fn brightness_command(b: Brightness) -> (r: [u8; 13])
    ensures
        r@ == command_bytes(brightness_code(b)),
{
    let code = b.as_byte();
    let r: [u8; 13] = [0x05, 0x00, 0x3d, 0x03, 0x06, 0x00, 0x07, 0x00, 0x0d, 0x14, 0x03, code, 0xad];
    assert(r@ =~= command_bytes(brightness_code(b)));
    r
}

} // verus!
