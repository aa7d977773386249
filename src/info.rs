use vstd::prelude::*;

use crate::filter::{Filter, filter_of};
use crate::gain::{Gain, gain_of};
use crate::indicator_state::{IndicatorState, indicator_state_of};
use crate::protocol::{DAWN_PRO_PID, FILTER_IDX, GAIN_IDX, INDICATOR_STATE_IDX};
use crate::volume::Volume;

verus! {

/// A decimal digit as a character.
pub open spec fn digit_char(d: nat) -> char {
    if d == 0 {
        '0'
    } else if d == 1 {
        '1'
    } else if d == 2 {
        '2'
    } else if d == 3 {
        '3'
    } else if d == 4 {
        '4'
    } else if d == 5 {
        '5'
    } else if d == 6 {
        '6'
    } else if d == 7 {
        '7'
    } else if d == 8 {
        '8'
    } else {
        '9'
    }
}

/// Decimal notation of a number, without leading zeros.
pub open spec fn decimal(n: nat) -> Seq<char>
    decreases n,
{
    if n < 10 {
        seq![digit_char(n)]
    } else {
        decimal(n / 10).push(digit_char(n % 10))
    }
}

/// Decimal notation padded with zeros to at least two digits.
pub open spec fn padded2(n: nat) -> Seq<char> {
    if n < 10 {
        seq!['0', digit_char(n)]
    } else {
        decimal(n)
    }
}

/// The `bus:address` label of a device, each part at least two digits.
pub open spec fn bus_label_of(bus: u8, address: u8) -> Seq<char> {
    padded2(bus as nat) + seq![':'] + padded2(address as nat)
}

/// Display name of a device that reports no product string.
pub open spec fn fallback_name(product_id: u16) -> Seq<char> {
    if product_id == DAWN_PRO_PID {
        "MOONDROP Dawn Pro"@
    } else {
        "Unknown"@
    }
}

fn digit_str(d: u8) -> (r: &'static str)
    requires
        d < 10,
    ensures
        r@ == seq![digit_char(d as nat)],
{
    proof {
        reveal_strlit("0");
        reveal_strlit("1");
        reveal_strlit("2");
        reveal_strlit("3");
        reveal_strlit("4");
        reveal_strlit("5");
        reveal_strlit("6");
        reveal_strlit("7");
        reveal_strlit("8");
        reveal_strlit("9");
    }
    if d == 0 {
        "0"
    } else if d == 1 {
        "1"
    } else if d == 2 {
        "2"
    } else if d == 3 {
        "3"
    } else if d == 4 {
        "4"
    } else if d == 5 {
        "5"
    } else if d == 6 {
        "6"
    } else if d == 7 {
        "7"
    } else if d == 8 {
        "8"
    } else {
        "9"
    }
}

fn push_decimal(s: &mut String, n: u32)
    ensures
        final(s)@ == old(s)@ + decimal(n as nat),
    decreases n,
{
    if n < 10 {
        s.append(digit_str(n as u8));
    } else {
        push_decimal(s, n / 10);
        s.append(digit_str((n % 10) as u8));
    }
    assert(final(s)@ =~= old(s)@ + decimal(n as nat));
}

/// Appends `n` in decimal, padded with zeros to at least two digits.
pub fn push_padded2(s: &mut String, n: u32)
    ensures
        final(s)@ == old(s)@ + padded2(n as nat),
{
    if n < 10 {
        s.append(digit_str(0));
        s.append(digit_str(n as u8));
        assert(final(s)@ =~= old(s)@ + padded2(n as nat));
    } else {
        push_decimal(s, n);
    }
}

/// The `bus:address` label of a device, as `{:02}:{:02}` writes it.
pub fn bus_label(bus: u8, address: u8) -> (r: String)
    ensures
        r@ == bus_label_of(bus, address),
{
    let mut s = String::new();
    push_padded2(&mut s, bus as u32);
    proof {
        reveal_strlit(":");
    }
    s.append(":");
    push_padded2(&mut s, address as u32);
    assert(s@ =~= bus_label_of(bus, address));
    s
}

/// Display name of a device: its product string, or else a name known for its
/// product ID, or else "Unknown".
pub fn device_name(product_string: Option<&str>, product_id: u16) -> (r: String)
    ensures
        match product_string {
            Some(p) => r@ == p@,
            None => r@ == fallback_name(product_id),
        },
{
    match product_string {
        Some(p) => String::from_str(p),
        None => {
            if product_id == DAWN_PRO_PID {
                String::from_str("MOONDROP Dawn Pro")
            } else {
                String::from_str("Unknown")
            }
        },
    }
}

/// Status of one dongle at one point in time.
#[derive(Clone, Debug)]
pub struct MoondropInfo {
    pub name: String,
    pub bus: String,
    pub volume: Volume,
    pub filter: Filter,
    pub gain: Gain,
    pub indicator_state: IndicatorState,
}

impl MoondropInfo {
    /// Takes filter, gain and indicator state from a status response, by their
    /// fixed offsets.
    pub fn new(name: String, bus: String, volume: Volume, data: &[u8]) -> (r: Self)
        requires
            data@.len() > INDICATOR_STATE_IDX,
        ensures
            r.name == name,
            r.bus == bus,
            r.volume == volume,
            r.filter == filter_of(data@[FILTER_IDX as int]),
            r.gain == gain_of(data@[GAIN_IDX as int]),
            r.indicator_state == indicator_state_of(data@[INDICATOR_STATE_IDX as int]),
    {
        let filter = Filter::from(data[FILTER_IDX]);
        let gain = Gain::from(data[GAIN_IDX]);
        let state = IndicatorState::from(data[INDICATOR_STATE_IDX]);
        MoondropInfo { name, bus, volume, filter, gain, indicator_state: state }
    }
}

} // verus!
