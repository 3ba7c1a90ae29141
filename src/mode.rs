use vstd::prelude::*;

verus! {

/// The IEEE-754 bit pattern of a refresh rate of 60 Hz.
///
/// Refresh rates are compared exactly, bit for bit, so they are carried as
/// their bit pattern rather than as a floating-point value.
pub const REFRESH_60_HZ_BITS: u64 = 0x404E_0000_0000_0000;

/// Serial number of the monitor that is managed.
pub const HOME_SERIAL: u32 = 959853388;

/// A display mode as far as the decisions read it.
#[derive(Clone, Copy, Debug, PartialEq, Eq, Structural)]
pub struct DisplayMode {
    pub width: u64,
    pub height: u64,
    pub bit_depth: usize,
    /// The refresh rate in hertz, as the bit pattern of its `f64` value.
    pub refresh_rate_bits: u64,
}

/// The display to manage and the mode it should run at.
#[derive(Clone, Copy, Debug, PartialEq, Eq, Structural)]
pub struct Target {
    pub serial: u32,
    pub mode: DisplayMode,
}

/// A mode is acceptable when all four of its fields equal the target's.
pub open spec fn mode_matches(m: DisplayMode, t: DisplayMode) -> bool {
    &&& m.width == t.width
    &&& m.height == t.height
    &&& m.bit_depth == t.bit_depth
    &&& m.refresh_rate_bits == t.refresh_rate_bits
}

/// Some mode of the list is acceptable.
pub open spec fn has_match(modes: Seq<DisplayMode>, t: DisplayMode) -> bool {
    exists|i: int| 0 <= i < modes.len() && mode_matches(#[trigger] modes[i], t)
}

/// `i` is the position of the first acceptable mode of the list.
pub open spec fn is_first_match(modes: Seq<DisplayMode>, t: DisplayMode, i: int) -> bool {
    &&& 0 <= i < modes.len()
    &&& mode_matches(modes[i], t)
    &&& forall|j: int| 0 <= j < i ==> !mode_matches(#[trigger] modes[j], t)
}

impl DisplayMode {
    /// Builds a mode from its four fields.
    pub fn new(width: u64, height: u64, bit_depth: usize, refresh_rate_bits: u64) -> (r: Self)
        ensures
            r.width == width,
            r.height == height,
            r.bit_depth == bit_depth,
            r.refresh_rate_bits == refresh_rate_bits,
    {
        DisplayMode { width, height, bit_depth, refresh_rate_bits }
    }

    /// Whether this mode equals `t` in width, height, bit depth and refresh
    /// rate.
    pub fn matches(&self, t: &DisplayMode) -> (r: bool)
        ensures
            r == mode_matches(*self, *t),
    {
        self.width == t.width && self.height == t.height && self.bit_depth == t.bit_depth
            && self.refresh_rate_bits == t.refresh_rate_bits
    }
}

impl Target {
    /// The managed monitor: serial 959853388, 1920x1080, 32 bits, 60 Hz.
    pub fn home() -> (r: Self)
        ensures
            r.serial == HOME_SERIAL,
            r.mode.width == 1920,
            r.mode.height == 1080,
            r.mode.bit_depth == 32,
            r.mode.refresh_rate_bits == REFRESH_60_HZ_BITS,
    {
        Target { serial: HOME_SERIAL, mode: DisplayMode::new(1920, 1080, 32, REFRESH_60_HZ_BITS) }
    }
}

/// Finds the first supported mode that equals the target, scanning in list
/// order.
pub fn find_mode(modes: &Vec<DisplayMode>, t: &DisplayMode) -> (r: Option<usize>)
    ensures
        r is None <==> !has_match(modes@, *t),
        r matches Some(i) ==> is_first_match(modes@, *t, i as int),
{
    let mut i: usize = 0;
    while i < modes.len()
        invariant
            i <= modes@.len(),
            forall|j: int| 0 <= j < i ==> !mode_matches(#[trigger] modes@[j], *t),
        decreases modes.len() - i,
    {
        if modes[i].matches(t) {
            return Some(i);
        }
        i = i + 1;
    }
    None
}

} // verus!
