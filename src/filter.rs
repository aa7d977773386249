use vstd::prelude::*;

verus! {

/// Digital reconstruction filter of the dongle.
#[derive(Clone, Copy, Debug, PartialEq, Eq, Structural)]
pub enum Filter {
    FastRollOffLowLatency,
    FastRollOffPhaseCompensated,
    SlowRollOffLowLatency,
    SlowRollOffPhaseCompensated,
    NonOversampling,
}

/// Largest byte that names a filter.
pub const FILTER_MAX_ORDINAL: u8 = 4;

/// Byte encoding of a filter: its ordinal.
pub open spec fn filter_byte(f: Filter) -> u8 {
    match f {
        Filter::FastRollOffLowLatency => 0,
        Filter::FastRollOffPhaseCompensated => 1,
        Filter::SlowRollOffLowLatency => 2,
        Filter::SlowRollOffPhaseCompensated => 3,
        Filter::NonOversampling => 4,
    }
}

/// Decoding of a byte: the filter with that ordinal, the default filter for
/// any other byte.
pub open spec fn filter_of(b: u8) -> Filter {
    if b == 1 {
        Filter::FastRollOffPhaseCompensated
    } else if b == 2 {
        Filter::SlowRollOffLowLatency
    } else if b == 3 {
        Filter::SlowRollOffPhaseCompensated
    } else if b == 4 {
        Filter::NonOversampling
    } else {
        Filter::FastRollOffLowLatency
    }
}

/// Human-readable name of a filter.
pub open spec fn filter_label(v: Filter) -> Seq<char> {
    match v {
        Filter::FastRollOffLowLatency => "Fast roll-off, low-latency"@,
        Filter::FastRollOffPhaseCompensated => "Fast roll-off, phase-compensated"@,
        Filter::SlowRollOffLowLatency => "Slow roll-off, low-latency"@,
        Filter::SlowRollOffPhaseCompensated => "Slow roll-off, phase-compensated"@,
        Filter::NonOversampling => "Non-oversampling"@,
    }
}

impl Filter {
    /// Human-readable name, as shown to users.
    pub fn label(&self) -> (r: &'static str)
        ensures
            r@ == filter_label(*self),
    {
        match self {
            Filter::FastRollOffLowLatency => "Fast roll-off, low-latency",
            Filter::FastRollOffPhaseCompensated => "Fast roll-off, phase-compensated",
            Filter::SlowRollOffLowLatency => "Slow roll-off, low-latency",
            Filter::SlowRollOffPhaseCompensated => "Slow roll-off, phase-compensated",
            Filter::NonOversampling => "Non-oversampling",
        }
    }

    /// The byte that selects this filter on the device.
    pub fn to_byte(self) -> (r: u8)
        ensures
            r == filter_byte(self),
            r <= FILTER_MAX_ORDINAL,
            filter_of(r) == self,
    {
        match self {
            Filter::FastRollOffLowLatency => 0,
            Filter::FastRollOffPhaseCompensated => 1,
            Filter::SlowRollOffLowLatency => 2,
            Filter::SlowRollOffPhaseCompensated => 3,
            Filter::NonOversampling => 4,
        }
    }
}

impl Default for Filter {
    fn default() -> (r: Filter)
        ensures
            r == Filter::FastRollOffLowLatency,
    {
        Filter::FastRollOffLowLatency
    }
}

impl From<u8> for Filter {
    fn from(value: u8) -> (r: Filter)
        ensures
            r == filter_of(value),
            value > FILTER_MAX_ORDINAL ==> r == Filter::FastRollOffLowLatency,
    {
        match value {
            0 => Filter::FastRollOffLowLatency,
            1 => Filter::FastRollOffPhaseCompensated,
            2 => Filter::SlowRollOffLowLatency,
            3 => Filter::SlowRollOffPhaseCompensated,
            4 => Filter::NonOversampling,
            _ => Filter::FastRollOffLowLatency,
        }
    }
}

impl vstd::std_specs::convert::FromSpecImpl<u8> for Filter {
    open spec fn obeys_from_spec() -> bool {
        true
    }

    open spec fn from_spec(v: u8) -> Filter {
        filter_of(v)
    }
}

} // verus!
