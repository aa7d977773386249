use vstd::prelude::*;

verus! {

/// Output gain of the dongle.
#[derive(Clone, Copy, Debug, PartialEq, Eq, Structural)]
pub enum Gain {
    Low,
    High,
}

/// Largest byte that names a gain.
pub const GAIN_MAX_ORDINAL: u8 = 1;

/// Byte encoding of a gain: its ordinal.
pub open spec fn gain_byte(g: Gain) -> u8 {
    match g {
        Gain::Low => 0,
        Gain::High => 1,
    }
}

/// Decoding of a byte: `High` for one, `Low` (the default) for any other byte.
pub open spec fn gain_of(b: u8) -> Gain {
    if b == 1 {
        Gain::High
    } else {
        Gain::Low
    }
}

/// Human-readable name of a gain.
pub open spec fn gain_label(v: Gain) -> Seq<char> {
    match v {
        Gain::Low => "Low"@,
        Gain::High => "High"@,
    }
}

impl Gain {
    /// Human-readable name, as shown to users.
    pub fn label(&self) -> (r: &'static str)
        ensures
            r@ == gain_label(*self),
    {
        match self {
            Gain::Low => "Low",
            Gain::High => "High",
        }
    }

    /// The byte that selects this gain on the device.
    pub fn to_byte(self) -> (r: u8)
        ensures
            r == gain_byte(self),
            r <= GAIN_MAX_ORDINAL,
            gain_of(r) == self,
    {
        match self {
            Gain::Low => 0,
            Gain::High => 1,
        }
    }
}

impl Default for Gain {
    fn default() -> (r: Gain)
        ensures
            r == Gain::Low,
    {
        Gain::Low
    }
}

impl From<u8> for Gain {
    fn from(value: u8) -> (r: Gain)
        ensures
            r == gain_of(value),
            value > GAIN_MAX_ORDINAL ==> r == Gain::Low,
    {
        match value {
            0 => Gain::Low,
            1 => Gain::High,
            _ => Gain::Low,
        }
    }
}

impl vstd::std_specs::convert::FromSpecImpl<u8> for Gain {
    open spec fn obeys_from_spec() -> bool {
        true
    }

    open spec fn from_spec(v: u8) -> Gain {
        gain_of(v)
    }
}

} // verus!
