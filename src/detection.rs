use vstd::prelude::*;
use crate::error::DriverError;

verus! {

/// A device found in the registry.
#[derive(Debug, Clone)]
pub struct InputDeviceInfo {
    pub name: String,
    pub event_path: String,
    /// The number of the bus the device sits on, when the registry shows it.
    pub i2c_bus: Option<u8>,
}

/// The two devices the driver works with, and the bus address of the
/// touchpad's backlight.
#[derive(Debug)]
pub struct DetectedDevices {
    pub touchpad: InputDeviceInfo,
    pub keyboard: InputDeviceInfo,
    pub i2c_address: u8,
}

/// What a registry block says of a device: its name, its event device path
/// and its bus number.
pub struct DeviceSpec {
    pub name: Seq<char>,
    pub event_path: Seq<char>,
    pub i2c_bus: Option<u8>,
}

impl InputDeviceInfo {
    pub open spec fn spec(&self) -> DeviceSpec {
        DeviceSpec { name: self.name@, event_path: self.event_path@, i2c_bus: self.i2c_bus }
    }
}

impl DetectedDevices {
    pub open spec fn spec(&self) -> (DeviceSpec, DeviceSpec, u8) {
        (self.touchpad.spec(), self.keyboard.spec(), self.i2c_address)
    }
}

/// `r` holds a device exactly when `d` does, and then the same one.
pub open spec fn info_is(r: Option<InputDeviceInfo>, d: Option<DeviceSpec>) -> bool {
    match (r, d) {
        (Some(i), Some(d)) => i.spec() == d,
        (None, None) => true,
        _ => false,
    }
}

/// A pair of positions as integers.
pub open spec fn int_pair(r: Option<(usize, usize)>) -> Option<(int, int)> {
    match r {
        Some((a, b)) => Some((a as int, b as int)),
        None => None,
    }
}

/// `p` occurs in `t` at position `i`.
pub open spec fn matches_at(t: Seq<char>, i: int, p: Seq<char>) -> bool {
    0 <= i && i + p.len() <= t.len() && t.subrange(i, i + p.len()) == p
}

/// `p` occurs in `t` at a position `j >= i` and ends by `hi`.
pub open spec fn occurs_from(t: Seq<char>, i: int, hi: int, p: Seq<char>) -> bool
    decreases hi - i,
{
    if i < 0 || i >= hi || i + p.len() > hi {
        false
    } else {
        matches_at(t, i, p) || occurs_from(t, i + 1, hi, p)
    }
}

pub open spec fn is_digit(ch: char) -> bool {
    '0' <= ch <= '9'
}

/// The end of the run of decimal digits of `t` that starts at `i`, stopping at `hi`.
pub open spec fn digits_end(t: Seq<char>, i: int, hi: int) -> int
    decreases hi - i,
{
    if 0 <= i < hi && hi <= t.len() && is_digit(t[i]) {
        digits_end(t, i + 1, hi)
    } else {
        i
    }
}

/// The value of a run of decimal digits.
pub open spec fn digits_value(d: Seq<char>) -> nat
    decreases d.len(),
{
    if d.len() == 0 {
        0
    } else {
        digits_value(d.drop_last()) * 10 + (d.last() as nat - '0' as nat) as nat
    }
}

/// The start of the first blank-line separator at or after `i`, or the
/// end of the text when there is none.
pub open spec fn block_end(c: Seq<char>, i: int) -> int
    decreases c.len() - i,
{
    if i < 0 || i + 1 >= c.len() {
        c.len() as int
    } else if c[i] == '\n' && c[i + 1] == '\n' {
        i
    } else {
        block_end(c, i + 1)
    }
}

/// The end of the line that starts at `i`, inside a block ending at `be`.
pub open spec fn line_end(c: Seq<char>, i: int, be: int) -> int
    decreases be - i,
{
    if i < 0 || i >= be || be > c.len() {
        be
    } else if c[i] == '\n' {
        i
    } else {
        line_end(c, i + 1, be)
    }
}

/// The end of a line's text: a carriage return before the line break is not part of it.
pub open spec fn line_text_end(c: Seq<char>, ls: int, le: int, be: int) -> int {
    if ls < le && le < be && c[le - 1] == '\r' {
        le - 1
    } else {
        le
    }
}

/// The first line of the block `[i, be)`, at or after `i`, that starts with `p`,
/// as the bounds of its text.
pub open spec fn find_line(c: Seq<char>, i: int, be: int, p: Seq<char>) -> Option<(int, int)>
    decreases be - i,
{
    let le = line_end(c, i, be);
    let te = line_text_end(c, i, le, be);
    if i + p.len() <= te && matches_at(c, i, p) {
        Some((i, te))
    } else if i <= le && le < be {
        find_line(c, le + 1, be, p)
    } else {
        None
    }
}

pub open spec fn name_key() -> Seq<char> {
    seq!['N', ':', ' ']
}

pub open spec fn handlers_key() -> Seq<char> {
    seq!['H', ':', ' ']
}

pub open spec fn sysfs_key() -> Seq<char> {
    seq!['S', ':', ' ']
}

pub open spec fn touchpad_word() -> Seq<char> {
    seq!['T', 'o', 'u', 'c', 'h', 'p', 'a', 'd']
}

pub open spec fn event_word() -> Seq<char> {
    seq!['e', 'v', 'e', 'n', 't']
}

pub open spec fn bus_word() -> Seq<char> {
    seq!['i', '2', 'c', '-']
}

pub open spec fn vendor_asuf() -> Seq<char> {
    seq!['A', 'S', 'U', 'F']
}

/// `Name="` followed by a known touchpad vendor prefix.
pub open spec fn touchpad_vendor_at(c: Seq<char>, i: int) -> bool {
    let q = seq!['N', 'a', 'm', 'e', '=', '"'];
    matches_at(c, i, q) && (matches_at(c, i + 6, seq!['A', 'S', 'U', 'E']) || matches_at(
        c,
        i + 6,
        vendor_asuf(),
    ) || matches_at(c, i + 6, seq!['E', 'L', 'A', 'N']))
}

/// Somewhere in `[i, hi)` a touchpad vendor prefix is followed, later on, by `Touchpad`.
pub open spec fn touchpad_name_from(c: Seq<char>, i: int, hi: int) -> bool
    decreases hi - i,
{
    if i < 0 || i + 10 > hi {
        false
    } else {
        (touchpad_vendor_at(c, i) && occurs_from(c, i + 10, hi, touchpad_word()))
            || touchpad_name_from(c, i + 1, hi)
    }
}

pub open spec fn keyboard_name_a() -> Seq<char> {
    seq![
        'N', 'a', 'm', 'e', '=', '"', 'A', 'T', ' ', 'T', 'r', 'a', 'n', 's', 'l', 'a', 't',
        'e', 'd', ' ', 'S', 'e', 't', ' ', '2', ' ', 'k', 'e', 'y', 'b', 'o', 'a', 'r', 'd',
    ]
}

pub open spec fn keyboard_name_b() -> Seq<char> {
    seq!['N', 'a', 'm', 'e', '=', '"', 'A', 's', 'u', 's', ' ', 'K', 'e', 'y', 'b', 'o', 'a', 'r', 'd']
}

/// The line `[ls, le)` names a known keyboard.
pub open spec fn keyboard_name(c: Seq<char>, ls: int, le: int) -> bool {
    occurs_from(c, ls, le, keyboard_name_a()) || occurs_from(c, ls, le, keyboard_name_b())
}

/// `event` followed by at least one digit, at `i`, within `hi`.
pub open spec fn event_at(c: Seq<char>, i: int, hi: int) -> bool {
    i + 6 <= hi && matches_at(c, i, event_word()) && is_digit(c[i + 5])
}

/// The digits of the leftmost `event<digits>` in `[i, hi)`.
pub open spec fn event_digits(c: Seq<char>, i: int, hi: int) -> Option<(int, int)>
    decreases hi - i,
{
    if i < 0 || i + 6 > hi || hi > c.len() {
        None
    } else if event_at(c, i, hi) {
        Some((i + 5, digits_end(c, i + 5, hi)))
    } else {
        event_digits(c, i + 1, hi)
    }
}

/// `i2c-<digits>/` at `i`, within `hi`.
pub open spec fn bus_at(c: Seq<char>, i: int, hi: int) -> bool {
    let e = digits_end(c, i + 4, hi);
    i + 5 <= hi && matches_at(c, i, bus_word()) && e > i + 4 && e < hi && c[e] == '/'
}

/// The digits of the leftmost `i2c-<digits>/` in `[i, hi)`.
pub open spec fn bus_digits(c: Seq<char>, i: int, hi: int) -> Option<(int, int)>
    decreases hi - i,
{
    if i < 0 || i + 5 > hi || hi > c.len() {
        None
    } else if bus_at(c, i, hi) {
        Some((i + 4, digits_end(c, i + 4, hi)))
    } else {
        bus_digits(c, i + 1, hi)
    }
}

/// A run of digits read as a byte, if it fits.
pub open spec fn byte_of(d: Seq<char>) -> Option<u8> {
    if digits_value(d) <= 255 {
        Some(digits_value(d) as u8)
    } else {
        None
    }
}

pub open spec fn event_prefix() -> Seq<char> {
    seq!['/', 'd', 'e', 'v', '/', 'i', 'n', 'p', 'u', 't', '/', 'e', 'v', 'e', 'n', 't']
}

pub open spec fn name_prefix() -> Seq<char> {
    seq!['N', ':', ' ', 'N', 'a', 'm', 'e', '=', '"']
}

/// Where the text of `l` begins once every leading `N: Name="` is removed.
pub open spec fn name_start(l: Seq<char>, i: int) -> int
    decreases l.len() - i,
{
    if 0 <= i && matches_at(l, i, name_prefix()) {
        name_start(l, i + 9)
    } else {
        i
    }
}

/// Where the text of `l` ends once every trailing quote down to `lo` is removed.
pub open spec fn name_end(l: Seq<char>, lo: int, e: int) -> int
    decreases e - lo,
{
    if lo < e && e <= l.len() && l[e - 1] == '"' {
        name_end(l, lo, e - 1)
    } else {
        e
    }
}

/// The device name on a name line: the line without its leading
/// `N: Name="` markers and trailing quotes.
pub open spec fn extracted_name(l: Seq<char>) -> Seq<char> {
    let s = name_start(l, 0);
    l.subrange(s, name_end(l, s, l.len() as int))
}

/// The device that the block `[bs, be)` describes, if it is a touchpad
/// (`touchpad`) or a keyboard (`!touchpad`) with an event device.
pub open spec fn device_in(c: Seq<char>, bs: int, be: int, touchpad: bool) -> Option<DeviceSpec> {
    match find_line(c, bs, be, name_key()) {
        None => None,
        Some((ns, ne)) => if (touchpad && touchpad_name_from(c, ns, ne)) || (!touchpad
            && keyboard_name(c, ns, ne)) {
            match find_line(c, bs, be, handlers_key()) {
                None => None,
                Some((hs, he)) => match event_digits(c, hs, he) {
                    None => None,
                    Some((ds, de)) => Some(
                        DeviceSpec {
                            name: extracted_name(c.subrange(ns, ne)),
                            event_path: event_prefix() + c.subrange(ds, de),
                            i2c_bus: if touchpad {
                                match find_line(c, bs, be, sysfs_key()) {
                                    None => None,
                                    Some((ss, se)) => match bus_digits(c, ss, se) {
                                        None => None,
                                        Some((ds2, de2)) => byte_of(c.subrange(ds2, de2)),
                                    },
                                }
                            } else {
                                None
                            },
                        },
                    ),
                },
            }
        } else {
            None
        },
    }
}

/// The first device of a kind in the blocks from the one starting at `bs`.
pub open spec fn first_device(c: Seq<char>, bs: int, touchpad: bool) -> Option<DeviceSpec>
    decreases c.len() - bs,
{
    let be = block_end(c, bs);
    match device_in(c, bs, be, touchpad) {
        Some(d) => Some(d),
        None => if 0 <= bs <= be && be + 2 <= c.len() {
            first_device(c, be + 2, touchpad)
        } else {
            None
        },
    }
}

/// The backlight's bus address for a touchpad name.
pub open spec fn address_for(name: Seq<char>) -> u8 {
    if occurs_from(name, 0, name.len() as int, vendor_asuf()) {
        0x38
    } else {
        0x15
    }
}

/// The characters of a text.
fn chars_of(s: &str) -> (r: Vec<char>)
    ensures
        r@ == s@,
{
    let n = s.unicode_len();
    let mut r: Vec<char> = Vec::new();
    let mut i: usize = 0;
    while i < n
        invariant
            n == s@.len(),
            i <= n,
            r@ == s@.subrange(0, i as int),
        decreases n - i,
    {
        r.push(s.get_char(i));
        i += 1;
        assert(r@ =~= s@.subrange(0, i as int));
    }
    assert(r@ =~= s@);
    r
}

/// Whether `p` occurs in `t` at `i`.
fn at(t: &Vec<char>, i: usize, p: &Vec<char>) -> (r: bool)
    ensures
        r == matches_at(t@, i as int, p@),
{
    if i > t.len() || p.len() > t.len() - i {
        return false;
    }
    let n: usize = t.len();
    let mut k: usize = 0;
    while k < p.len()
        invariant
            n == t@.len(),
            i + p@.len() <= t@.len(),
            k <= p@.len(),
            forall|m: int| 0 <= m < k ==> t@[i + m] == p@[m],
        decreases p@.len() - k,
    {
        if t[i + k] != p[k] {
            assert(t@.subrange(i as int, i + p@.len())[k as int] != p@[k as int]);
            return false;
        }
        k += 1;
    }
    assert(t@.subrange(i as int, i + p@.len()) =~= p@);
    true
}

/// Whether `p` occurs in `t` at or after `i`, ending by `hi`.
fn occurs(t: &Vec<char>, i: usize, hi: usize, p: &Vec<char>) -> (r: bool)
    requires
        hi <= t@.len(),
    ensures
        r == occurs_from(t@, i as int, hi as int, p@),
{
    let mut j: usize = i;
    while j < hi && p.len() <= hi - j
        invariant
            i <= j,
            hi <= t@.len(),
            occurs_from(t@, i as int, hi as int, p@) == occurs_from(t@, j as int, hi as int, p@),
        decreases hi - j,
    {
        if at(t, j, p) {
            return true;
        }
        j += 1;
    }
    false
}

fn is_digit_char(ch: char) -> (r: bool)
    ensures
        r == is_digit(ch),
{
    '0' <= ch && ch <= '9'
}

/// The end of the run of digits that starts at `i`, stopping at `hi`.
fn digits_end_at(c: &Vec<char>, i: usize, hi: usize) -> (r: usize)
    requires
        i <= hi <= c@.len(),
    ensures
        r == digits_end(c@, i as int, hi as int),
        i <= r <= hi,
        forall|m: int| i <= m < r ==> is_digit(#[trigger] c@[m]),
{
    let mut j: usize = i;
    while j < hi && is_digit_char(c[j])
        invariant
            i <= j <= hi <= c@.len(),
            digits_end(c@, i as int, hi as int) == digits_end(c@, j as int, hi as int),
            forall|m: int| i <= m < j ==> is_digit(#[trigger] c@[m]),
        decreases hi - j,
    {
        j += 1;
    }
    j
}

/// Each digit run's value grows with each digit appended.
proof fn lemma_digits_value_prefix(d: Seq<char>, k: int)
    requires
        0 <= k <= d.len(),
        forall|m: int| 0 <= m < d.len() ==> is_digit(#[trigger] d[m]),
    ensures
        digits_value(d.subrange(0, k)) <= digits_value(d),
    decreases d.len(),
{
    if k < d.len() {
        let e = d.drop_last();
        assert(e.subrange(0, k) =~= d.subrange(0, k));
        assert forall|m: int| 0 <= m < e.len() implies is_digit(#[trigger] e[m]) by {
            assert(e[m] == d[m]);
        }
        lemma_digits_value_prefix(e, k);
    } else {
        assert(d.subrange(0, k) =~= d);
    }
}

/// The digits `[ds, de)` read as a byte, or nothing when the value exceeds 255.
fn byte_at(c: &Vec<char>, ds: usize, de: usize) -> (r: Option<u8>)
    requires
        ds <= de <= c@.len(),
        forall|m: int| ds <= m < de ==> is_digit(#[trigger] c@[m]),
    ensures
        r == byte_of(c@.subrange(ds as int, de as int)),
{
    let ghost d = c@.subrange(ds as int, de as int);
    assert forall|m: int| 0 <= m < d.len() implies is_digit(#[trigger] d[m]) by {
        assert(d[m] == c@[ds + m]);
    }
    let mut v: u32 = 0;
    let mut k: usize = ds;
    assert(c@.subrange(ds as int, ds as int) =~= Seq::<char>::empty());
    while k < de
        invariant
            ds <= k <= de <= c@.len(),
            d == c@.subrange(ds as int, de as int),
            forall|m: int| ds <= m < de ==> is_digit(#[trigger] c@[m]),
            v == digits_value(c@.subrange(ds as int, k as int)),
            v <= 255,
        decreases de - k,
    {
        let digit = c[k] as u32 - '0' as u32;
        assert(c@.subrange(ds as int, k + 1).drop_last() =~= c@.subrange(ds as int, k as int));
        v = v * 10 + digit;
        k += 1;
        if v > 255 {
            proof {
                assert(d.subrange(0, k - ds) =~= c@.subrange(ds as int, k as int));
                lemma_digits_value_prefix(d, k - ds);
            }
            return None;
        }
    }
    assert(c@.subrange(ds as int, k as int) =~= d);
    Some(v as u8)
}


/// The start of the first blank-line separator at or after `i`, or the end.
fn block_end_at(c: &Vec<char>, i: usize) -> (r: usize)
    requires
        i <= c@.len(),
    ensures
        r == block_end(c@, i as int),
        i <= r <= c@.len(),
        r < c@.len() ==> r + 2 <= c@.len(),
{
    let n = c.len();
    let mut j: usize = i;
    while n - j >= 2 && !(c[j] == '\n' && c[j + 1] == '\n')
        invariant
            n == c@.len(),
            i <= j <= n,
            block_end(c@, i as int) == block_end(c@, j as int),
        decreases n - j,
    {
        j += 1;
    }
    if n - j >= 2 {
        j
    } else {
        n
    }
}

/// The end of the line starting at `i` in a block ending at `be`.
fn line_end_at(c: &Vec<char>, i: usize, be: usize) -> (r: usize)
    requires
        i <= be <= c@.len(),
    ensures
        r == line_end(c@, i as int, be as int),
        i <= r <= be,
{
    let mut j: usize = i;
    while j < be && c[j] != '\n'
        invariant
            i <= j <= be <= c@.len(),
            line_end(c@, i as int, be as int) == line_end(c@, j as int, be as int),
        decreases be - j,
    {
        j += 1;
    }
    j
}

/// The bounds of the first line of `[i, be)` that starts with `p`.
fn find_line_at(c: &Vec<char>, i: usize, be: usize, p: &Vec<char>) -> (r: Option<(usize, usize)>)
    requires
        i <= be <= c@.len(),
    ensures
        int_pair(r) == find_line(c@, i as int, be as int, p@),
        r matches Some((a, b)) ==> a <= b <= be,
{
    let mut j: usize = i;
    loop
        invariant
            j <= be <= c@.len(),
            find_line(c@, i as int, be as int, p@) == find_line(c@, j as int, be as int, p@),
        decreases be - j,
    {
        let le = line_end_at(c, j, be);
        let te = if j < le && le < be && c[le - 1] == '\r' {
            le - 1
        } else {
            le
        };
        if p.len() <= te - j && at(c, j, p) {
            return Some((j, te));
        }
        if le < be {
            j = le + 1;
        } else {
            return None;
        }
    }
}

/// Whether the line `[ls, le)` names a known touchpad.
fn touchpad_name_in(c: &Vec<char>, ls: usize, le: usize) -> (r: bool)
    requires
        ls <= le <= c@.len(),
    ensures
        r == touchpad_name_from(c@, ls as int, le as int),
{
    let quote = vec!['N', 'a', 'm', 'e', '=', '"'];
    let asue = vec!['A', 'S', 'U', 'E'];
    let asuf = vec!['A', 'S', 'U', 'F'];
    let elan = vec!['E', 'L', 'A', 'N'];
    let word = vec!['T', 'o', 'u', 'c', 'h', 'p', 'a', 'd'];
    assert(quote@ =~= seq!['N', 'a', 'm', 'e', '=', '"']);
    assert(asue@ =~= seq!['A', 'S', 'U', 'E']);
    assert(asuf@ =~= vendor_asuf());
    assert(elan@ =~= seq!['E', 'L', 'A', 'N']);
    assert(word@ =~= touchpad_word());
    let mut j: usize = ls;
    while j <= le && le - j >= 10
        invariant
            ls <= j,
            le <= c@.len(),
            quote@ == seq!['N', 'a', 'm', 'e', '=', '"'],
            asue@ == seq!['A', 'S', 'U', 'E'],
            asuf@ == vendor_asuf(),
            elan@ == seq!['E', 'L', 'A', 'N'],
            word@ == touchpad_word(),
            touchpad_name_from(c@, ls as int, le as int) == touchpad_name_from(c@, j as int, le as int),
        decreases le - j,
    {
        if at(c, j, &quote) && (at(c, j + 6, &asue) || at(c, j + 6, &asuf) || at(c, j + 6, &elan))
            && occurs(c, j + 10, le, &word) {
            return true;
        }
        j += 1;
    }
    false
}

/// Whether the line `[ls, le)` names a known keyboard.
fn keyboard_name_in(c: &Vec<char>, ls: usize, le: usize) -> (r: bool)
    requires
        ls <= le <= c@.len(),
    ensures
        r == keyboard_name(c@, ls as int, le as int),
{
    let a = vec![
        'N', 'a', 'm', 'e', '=', '"', 'A', 'T', ' ', 'T', 'r', 'a', 'n', 's', 'l', 'a', 't',
        'e', 'd', ' ', 'S', 'e', 't', ' ', '2', ' ', 'k', 'e', 'y', 'b', 'o', 'a', 'r', 'd',
    ];
    let b = vec!['N', 'a', 'm', 'e', '=', '"', 'A', 's', 'u', 's', ' ', 'K', 'e', 'y', 'b', 'o', 'a', 'r', 'd'];
    assert(a@ =~= keyboard_name_a());
    assert(b@ =~= keyboard_name_b());
    occurs(c, ls, le, &a) || occurs(c, ls, le, &b)
}

/// The digits of the leftmost `event<digits>` in `[i, hi)`.
fn event_digits_at(c: &Vec<char>, i: usize, hi: usize) -> (r: Option<(usize, usize)>)
    requires
        i <= hi <= c@.len(),
    ensures
        int_pair(r) == event_digits(c@, i as int, hi as int),
        r matches Some((a, b)) ==> a <= b <= hi && forall|m: int|
            a <= m < b ==> is_digit(#[trigger] c@[m]),
{
    let word = vec!['e', 'v', 'e', 'n', 't'];
    assert(word@ =~= event_word());
    let mut j: usize = i;
    while j <= hi && hi - j >= 6
        invariant
            i <= j,
            hi <= c@.len(),
            word@ == event_word(),
            event_digits(c@, i as int, hi as int) == event_digits(c@, j as int, hi as int),
        decreases hi - j,
    {
        if at(c, j, &word) && is_digit_char(c[j + 5]) {
            let e = digits_end_at(c, j + 5, hi);
            return Some((j + 5, e));
        }
        j += 1;
    }
    None
}

/// The digits of the leftmost `i2c-<digits>/` in `[i, hi)`.
fn bus_digits_at(c: &Vec<char>, i: usize, hi: usize) -> (r: Option<(usize, usize)>)
    requires
        i <= hi <= c@.len(),
    ensures
        int_pair(r) == bus_digits(c@, i as int, hi as int),
        r matches Some((a, b)) ==> a <= b <= hi && forall|m: int|
            a <= m < b ==> is_digit(#[trigger] c@[m]),
{
    let word = vec!['i', '2', 'c', '-'];
    assert(word@ =~= bus_word());
    let mut j: usize = i;
    while j <= hi && hi - j >= 5
        invariant
            i <= j,
            hi <= c@.len(),
            word@ == bus_word(),
            bus_digits(c@, i as int, hi as int) == bus_digits(c@, j as int, hi as int),
        decreases hi - j,
    {
        let e = digits_end_at(c, j + 4, hi);
        if at(c, j, &word) && e > j + 4 && e < hi && c[e] == '/' {
            return Some((j + 4, e));
        }
        j += 1;
    }
    None
}

/// The device name on a registry name line: the line without its leading
/// `N: Name="` markers and its trailing quotes.
pub fn extract_name(name_line: &str) -> (r: String)
    ensures
        r@ == extracted_name(name_line@),
{
    let l = chars_of(name_line);
    let p = vec!['N', ':', ' ', 'N', 'a', 'm', 'e', '=', '"'];
    assert(p@ =~= name_prefix());
    let n: usize = l.len();
    let mut s: usize = 0;
    while at(&l, s, &p)
        invariant
            n == l@.len(),
            p@ == name_prefix(),
            p@.len() == 9,
            s <= l@.len(),
            name_start(l@, 0) == name_start(l@, s as int),
        decreases l@.len() - s,
    {
        s += 9;
    }
    let mut e: usize = l.len();
    while e > s && l[e - 1] == '"'
        invariant
            s <= e <= l@.len(),
            name_end(l@, s as int, l@.len() as int) == name_end(l@, s as int, e as int),
        decreases e,
    {
        e -= 1;
    }
    String::from_str(name_line.substring_char(s, e))
}

/// The device of a kind that the block `[bs, be)` describes, if any.
fn device_in_block(content: &str, c: &Vec<char>, bs: usize, be: usize, touchpad: bool) -> (r: Option<
    InputDeviceInfo,
>)
    requires
        c@ == content@,
        bs <= be <= c@.len(),
    ensures
        info_is(r, device_in(c@, bs as int, be as int, touchpad)),
{
    let name_key_v = vec!['N', ':', ' '];
    let handlers_key_v = vec!['H', ':', ' '];
    let sysfs_key_v = vec!['S', ':', ' '];
    assert(name_key_v@ =~= name_key());
    assert(handlers_key_v@ =~= handlers_key());
    assert(sysfs_key_v@ =~= sysfs_key());
    let (ns, ne) = match find_line_at(c, bs, be, &name_key_v) {
        Some(line) => line,
        None => return None,
    };
    let wanted = if touchpad {
        touchpad_name_in(c, ns, ne)
    } else {
        keyboard_name_in(c, ns, ne)
    };
    if !wanted {
        return None;
    }
    let (hs, he) = match find_line_at(c, bs, be, &handlers_key_v) {
        Some(line) => line,
        None => return None,
    };
    let (ds, de) = match event_digits_at(c, hs, he) {
        Some(digits) => digits,
        None => return None,
    };
    let i2c_bus = if touchpad {
        match find_line_at(c, bs, be, &sysfs_key_v) {
            Some((ss, se)) => match bus_digits_at(c, ss, se) {
                Some((bs2, be2)) => byte_at(c, bs2, be2),
                None => None,
            },
            None => None,
        }
    } else {
        None
    };
    let name = extract_name(content.substring_char(ns, ne));
    proof {
        reveal_strlit("/dev/input/event");
        assert("/dev/input/event"@ =~= event_prefix());
    }
    let event_path = String::from_str("/dev/input/event").concat(content.substring_char(ds, de));
    Some(InputDeviceInfo { name, event_path, i2c_bus })
}

/// The first device of a kind, block by block.
fn first_device_in(content: &str, c: &Vec<char>, touchpad: bool) -> (r: Option<InputDeviceInfo>)
    requires
        c@ == content@,
    ensures
        info_is(r, first_device(c@, 0, touchpad)),
{
    let n = c.len();
    let mut bs: usize = 0;
    loop
        invariant
            n == c@.len(),
            c@ == content@,
            bs <= n,
            first_device(c@, 0, touchpad) == first_device(c@, bs as int, touchpad),
        decreases n - bs,
    {
        let be = block_end_at(c, bs);
        let found = device_in_block(content, c, bs, be, touchpad);
        if found.is_some() {
            return found;
        }
        if n - be >= 2 {
            bs = be + 2;
        } else {
            return None;
        }
    }
}

/// The devices a registry text describes: the first touchpad and the first
/// keyboard with an event device, and the backlight address for the
/// touchpad.
pub open spec fn devices_of(c: Seq<char>) -> Option<(DeviceSpec, DeviceSpec, u8)> {
    match (first_device(c, 0, true), first_device(c, 0, false)) {
        (Some(t), Some(k)) => Some((t, k, address_for(t.name))),
        _ => None,
    }
}

/// Finds the touchpad and the keyboard in a snapshot of the device registry:
/// blocks separated by a blank line, each with a name line (`N: `), a
/// handlers line (`H: `) and a sysfs path line (`S: `). The backlight sits
/// at address 0x38 when the touchpad's name contains `ASUF`, else at 0x15.
pub fn parse_devices(content: &str) -> (r: Option<DetectedDevices>)
    ensures
        r is Some <==> devices_of(content@) is Some,
        r matches Some(d) ==> devices_of(content@) == Some(d.spec()),
{
    let c = chars_of(content);
    let tp = first_device_in(content, &c, true);
    let kb = first_device_in(content, &c, false);
    match (tp, kb) {
        (Some(touchpad), Some(keyboard)) => {
            let name = chars_of(touchpad.name.as_str());
            let asuf = vec!['A', 'S', 'U', 'F'];
            assert(asuf@ =~= vendor_asuf());
            let i2c_address: u8 = if occurs(&name, 0, name.len(), &asuf) {
                0x38
            } else {
                0x15
            };
            Some(DetectedDevices { touchpad, keyboard, i2c_address })
        },
        _ => None,
    }
}


/// What device detection does next.
#[derive(Debug)]
pub enum DetectionStep {
    /// Read a fresh registry snapshot for attempt `index`, first pausing
    /// for the retry delay when `pause` is set.
    Attempt { index: u32, pause: bool },
    /// Both devices were found.
    Found(DetectedDevices),
    /// Detection gave up.
    Failed(DriverError),
}

/// `e` reports a timeout after `n` attempts.
pub open spec fn is_timeout(e: DriverError, n: u32) -> bool {
    e matches DriverError::DetectionTimeout(k) && k == n
}

/// `r` is attempt `index`, with a pause exactly when `pause` holds.
pub open spec fn is_attempt_step(r: DetectionStep, index: u32, pause: bool) -> bool {
    r matches DetectionStep::Attempt { index: i, pause: p } && i == index && p == pause
}

/// `r` gives up with a timeout after `n` attempts.
pub open spec fn is_timeout_step(r: DetectionStep, n: u32) -> bool {
    r matches DetectionStep::Failed(e) && is_timeout(e, n)
}

/// `r` found the devices `d`.
pub open spec fn is_found_step(r: DetectionStep, d: (DeviceSpec, DeviceSpec, u8)) -> bool {
    r matches DetectionStep::Found(x) && x.spec() == d
}

/// `r` is a timeout after `n` attempts.
pub open spec fn is_timeout_result(r: Result<DetectedDevices, DriverError>, n: u32) -> bool {
    r matches Err(e) && is_timeout(e, n)
}

/// The first step of detection with `try_times` attempts: the first
/// attempt, with no pause, or a timeout when no attempt is allowed.
pub fn start_detection(try_times: u32) -> (r: DetectionStep)
    ensures
        try_times > 0 ==> is_attempt_step(r, 0, false),
        try_times == 0 ==> is_timeout_step(r, 0),
{
    if try_times > 0 {
        DetectionStep::Attempt { index: 0, pause: false }
    } else {
        DetectionStep::Failed(DriverError::DetectionTimeout(0))
    }
}

/// The step after attempt `attempt` of `try_times` read `snapshot`: the
/// devices when the snapshot shows both, else the next attempt after a
/// pause, or a timeout carrying `try_times` when this was the last attempt.
pub fn detection_step(attempt: u32, try_times: u32, snapshot: &str) -> (r: DetectionStep)
    requires
        attempt < try_times,
    ensures
        devices_of(snapshot@) matches Some(d) ==> is_found_step(r, d),
        devices_of(snapshot@) is None && attempt + 1 < try_times ==> is_attempt_step(
            r,
            (attempt + 1) as u32,
            true,
        ),
        devices_of(snapshot@) is None && attempt + 1 == try_times ==> is_timeout_step(r, try_times),
{
    match parse_devices(snapshot) {
        Some(d) => DetectionStep::Found(d),
        None => if attempt + 1 < try_times {
            DetectionStep::Attempt { index: attempt + 1, pause: true }
        } else {
            DetectionStep::Failed(DriverError::DetectionTimeout(try_times))
        },
    }
}

/// The devices of the first of `snaps[i..n]` that shows both.
pub open spec fn first_found(snaps: Seq<String>, i: int, n: int) -> Option<(DeviceSpec, DeviceSpec, u8)>
    decreases n - i,
{
    if i < 0 || i >= n || i >= snaps.len() {
        None
    } else if devices_of(snaps[i]@) is Some {
        devices_of(snaps[i]@)
    } else {
        first_found(snaps, i + 1, n)
    }
}

/// Runs detection with `try_times` attempts, attempt `i` reading
/// `snapshots[i]`. Detection that finds nothing in any attempt fails with a
/// timeout that carries exactly `try_times`.
pub fn detect_in_snapshots(snapshots: &Vec<String>, try_times: u32) -> (r: Result<
    DetectedDevices,
    DriverError,
>)
    requires
        try_times <= snapshots@.len(),
    ensures
        r is Ok <==> first_found(snapshots@, 0, try_times as int) is Some,
        r matches Ok(d) ==> first_found(snapshots@, 0, try_times as int) == Some(d.spec()),
        r matches Err(e) ==> is_timeout(e, try_times),
        (forall|i: int| 0 <= i < try_times ==> devices_of(#[trigger] snapshots@[i]@) is None)
            ==> is_timeout_result(r, try_times),
{
    proof {
        if forall|i: int| 0 <= i < try_times ==> devices_of(#[trigger] snapshots@[i]@) is None {
            lemma_first_found_none(snapshots@, 0, try_times as int);
        }
    }
    let mut step = start_detection(try_times);
    loop
        invariant
            try_times <= snapshots@.len(),
            (forall|i: int| 0 <= i < try_times ==> devices_of(#[trigger] snapshots@[i]@) is None)
                ==> first_found(snapshots@, 0, try_times as int) is None,
            step matches DetectionStep::Attempt { index, pause } ==> index < try_times
                && first_found(snapshots@, 0, try_times as int) == first_found(
                snapshots@,
                index as int,
                try_times as int,
            ),
            step matches DetectionStep::Found(d) ==> first_found(snapshots@, 0, try_times as int)
                == Some(d.spec()),
            step matches DetectionStep::Failed(e) ==> is_timeout(e, try_times) && first_found(
                snapshots@,
                0,
                try_times as int,
            ) is None,
        decreases (if let DetectionStep::Attempt { index, .. } = step {
            try_times - index + 1
        } else {
            0
        }),
    {
        match step {
            DetectionStep::Attempt { index, pause: _ } => {
                step = detection_step(index, try_times, snapshots[index as usize].as_str());
                assert(first_found(snapshots@, index + 1, try_times as int) is None
                    || index + 1 < try_times);
            },
            DetectionStep::Found(d) => return Ok(d),
            DetectionStep::Failed(e) => return Err(e),
        }
    }
}

/// With no snapshot showing both devices, nothing is found.
proof fn lemma_first_found_none(snaps: Seq<String>, i: int, n: int)
    requires
        0 <= i,
        forall|k: int| i <= k < n ==> devices_of(#[trigger] snaps[k]@) is None,
    ensures
        first_found(snaps, i, n) is None,
    decreases n - i,
{
    if i < n && i < snaps.len() {
        lemma_first_found_none(snaps, i + 1, n);
    }
}

} // verus!
