use vstd::prelude::*;

use crate::filter::{Filter, filter_byte};
use crate::gain::{Gain, gain_byte};
use crate::indicator_state::{IndicatorState, indicator_state_byte};
use crate::volume::{Volume, payload_of};

verus! {

/// USB vendor ID of the dongles this library controls.
pub const MOONDROP_VID: u16 = 0x2fc6;

/// Product ID of the Dawn Pro.
pub const DAWN_PRO_PID: u16 = 0xf06a;

/// `wIndex` of every control transfer.
pub const REQUEST_INDEX: u16 = 0x09A0;

/// `wValue` of every control transfer.
pub const REQUEST_VALUE: u16 = 0x0000;

/// Request ID of a control write (host to device).
pub const REQUEST_ID_WRITE: u8 = 0xA0;

/// Request ID of a control read (device to host).
pub const REQUEST_ID_READ: u8 = 0xA1;

/// First byte of every opcode.
pub const OPCODE_FAMILY: u8 = 0xC0;

/// Second byte of every opcode.
pub const OPCODE_GROUP: u8 = 0xA5;

/// Third opcode byte of the status query.
pub const OP_GET_STATUS: u8 = 0xA3;

/// Third opcode byte of the volume query.
pub const OP_GET_VOLUME: u8 = 0xA2;

/// Third opcode byte of the filter command.
pub const OP_SET_FILTER: u8 = 0x01;

/// Third opcode byte of the gain command.
pub const OP_SET_GAIN: u8 = 0x02;

/// Third opcode byte of the volume command.
pub const OP_SET_VOLUME: u8 = 0x04;

/// Third opcode byte of the indicator command.
pub const OP_SET_INDICATOR_STATE: u8 = 0x06;

/// Length of the response to either query.
pub const RESPONSE_LEN: u16 = 7;

/// Offset of the filter ordinal in a status response.
pub const FILTER_IDX: usize = 3;

/// Offset of the gain ordinal in a status response.
pub const GAIN_IDX: usize = 4;

/// Offset of the payload byte in a volume response.
pub const VOLUME_IDX: usize = 4;

/// Offset of the indicator ordinal in a status response.
pub const INDICATOR_STATE_IDX: usize = 5;

/// One request of the vendor protocol.
#[derive(Clone, Copy, Debug)]
pub enum Command {
    GetStatus,
    GetVolume,
    SetFilter(Filter),
    SetGain(Gain),
    SetVolume(Volume),
    SetIndicatorState(IndicatorState),
}

/// Third opcode byte of a command.
pub open spec fn opcode_byte(c: Command) -> u8 {
    match c {
        Command::GetStatus => OP_GET_STATUS,
        Command::GetVolume => OP_GET_VOLUME,
        Command::SetFilter(_) => OP_SET_FILTER,
        Command::SetGain(_) => OP_SET_GAIN,
        Command::SetVolume(_) => OP_SET_VOLUME,
        Command::SetIndicatorState(_) => OP_SET_INDICATOR_STATE,
    }
}

/// The bytes written for a command: the three opcode bytes, then for a set
/// command its operand.
pub open spec fn frame_of(c: Command) -> Seq<u8> {
    let op = seq![OPCODE_FAMILY, OPCODE_GROUP, opcode_byte(c)];
    match c {
        Command::GetStatus => op,
        Command::GetVolume => op,
        Command::SetFilter(f) => op.push(filter_byte(f)),
        Command::SetGain(g) => op.push(gain_byte(g)),
        Command::SetVolume(v) => op.push(payload_of(v.percent() as int) as u8),
        Command::SetIndicatorState(s) => op.push(indicator_state_byte(s)),
    }
}

/// Whether a command is a query, answered by a response frame.
pub open spec fn is_query(c: Command) -> bool {
    c is GetStatus || c is GetVolume
}

impl Command {
    /// The bytes of the control write that carries this command.
    pub fn frame(&self) -> (r: Vec<u8>)
        ensures
            r@ == frame_of(*self),
            r@.len() == if is_query(*self) { 3int } else { 4int },
    {
        let mut r: Vec<u8> = Vec::new();
        r.push(OPCODE_FAMILY);
        r.push(OPCODE_GROUP);
        match self {
            Command::GetStatus => r.push(OP_GET_STATUS),
            Command::GetVolume => r.push(OP_GET_VOLUME),
            Command::SetFilter(f) => {
                r.push(OP_SET_FILTER);
                r.push(f.to_byte());
            },
            Command::SetGain(g) => {
                r.push(OP_SET_GAIN);
                r.push(g.to_byte());
            },
            Command::SetVolume(v) => {
                r.push(OP_SET_VOLUME);
                r.push(v.to_payload());
            },
            Command::SetIndicatorState(s) => {
                r.push(OP_SET_INDICATOR_STATE);
                r.push(s.to_byte());
            },
        }
        assert(r@ =~= frame_of(*self));
        r
    }

    /// Whether this command is a query.
    pub fn is_query(&self) -> (r: bool)
        ensures
            r == is_query(*self),
    {
        match self {
            Command::GetStatus => true,
            Command::GetVolume => true,
            _ => false,
        }
    }
}

} // verus!
