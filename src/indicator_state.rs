use vstd::prelude::*;

verus! {

/// Mode of the dongle's status light.
#[derive(Clone, Copy, Debug, PartialEq, Eq, Structural)]
pub enum IndicatorState {
    Enabled,
    DisabledTemp,
    Disabled,
}

/// Largest byte that names an indicator state.
pub const INDICATOR_STATE_MAX_ORDINAL: u8 = 2;

/// Byte encoding of an indicator state: its ordinal.
pub open spec fn indicator_state_byte(s: IndicatorState) -> u8 {
    match s {
        IndicatorState::Enabled => 0,
        IndicatorState::DisabledTemp => 1,
        IndicatorState::Disabled => 2,
    }
}

/// Decoding of a byte: the state with that ordinal, `Enabled` (the default)
/// for any other byte.
pub open spec fn indicator_state_of(b: u8) -> IndicatorState {
    if b == 1 {
        IndicatorState::DisabledTemp
    } else if b == 2 {
        IndicatorState::Disabled
    } else {
        IndicatorState::Enabled
    }
}

/// Human-readable name of a indicator state.
pub open spec fn indicator_state_label(v: IndicatorState) -> Seq<char> {
    match v {
        IndicatorState::Enabled => "Enabled"@,
        IndicatorState::DisabledTemp => "Temporarily Disabled"@,
        IndicatorState::Disabled => "Disabled"@,
    }
}

impl IndicatorState {
    /// Human-readable name, as shown to users.
    pub fn label(&self) -> (r: &'static str)
        ensures
            r@ == indicator_state_label(*self),
    {
        match self {
            IndicatorState::Enabled => "Enabled",
            IndicatorState::DisabledTemp => "Temporarily Disabled",
            IndicatorState::Disabled => "Disabled",
        }
    }

    /// The byte that selects this state on the device.
    pub fn to_byte(self) -> (r: u8)
        ensures
            r == indicator_state_byte(self),
            r <= INDICATOR_STATE_MAX_ORDINAL,
            indicator_state_of(r) == self,
    {
        match self {
            IndicatorState::Enabled => 0,
            IndicatorState::DisabledTemp => 1,
            IndicatorState::Disabled => 2,
        }
    }
}

impl Default for IndicatorState {
    fn default() -> (r: IndicatorState)
        ensures
            r == IndicatorState::Enabled,
    {
        IndicatorState::Enabled
    }
}

impl From<u8> for IndicatorState {
    fn from(value: u8) -> (r: IndicatorState)
        ensures
            r == indicator_state_of(value),
            value > INDICATOR_STATE_MAX_ORDINAL ==> r == IndicatorState::Enabled,
    {
        match value {
            0 => IndicatorState::Enabled,
            1 => IndicatorState::DisabledTemp,
            2 => IndicatorState::Disabled,
            _ => IndicatorState::Enabled,
        }
    }
}

impl vstd::std_specs::convert::FromSpecImpl<u8> for IndicatorState {
    open spec fn obeys_from_spec() -> bool {
        true
    }

    open spec fn from_spec(v: u8) -> IndicatorState {
        indicator_state_of(v)
    }
}

} // verus!
