use vstd::prelude::*;

use crate::info::{padded2, push_padded2};

verus! {

/// Payload byte of the loudest setting.
pub const VOLUME_MAX: u8 = 0x00;

/// Payload byte of the quietest setting.
pub const VOLUME_MIN: u8 = 0x70;

/// The device encoding of a percentage: `VOLUME_MIN - p * VOLUME_MIN / 100 - 1`,
/// saturated to the payload range.
pub open spec fn payload_of(p: int) -> int {
    let raw = VOLUME_MIN as int - p * (VOLUME_MIN as int) / 100 - 1;
    if raw < VOLUME_MAX as int {
        VOLUME_MAX as int
    } else if raw > VOLUME_MIN as int {
        VOLUME_MIN as int
    } else {
        raw
    }
}

/// The percentage that a payload byte stands for, after saturating the byte
/// to the payload range.
pub open spec fn percent_of(b: int) -> int {
    let c = if b > VOLUME_MIN as int { VOLUME_MIN as int } else { b };
    (VOLUME_MIN as int - c) * 100 / (VOLUME_MIN as int)
}

/// For every percentage in 0..=100 the payload byte lies in the payload range,
/// and decoding it gives the same percentage back.
pub proof fn lemma_payload_round_trip(p: int)
    requires
        0 <= p <= 100,
    ensures
        VOLUME_MAX as int <= payload_of(p) <= VOLUME_MIN as int,
        percent_of(payload_of(p)) == p,
{
    // 112 is VOLUME_MIN.
    let q = p * 112 / 100;
    assert(100 * q <= 112 * p < 100 * q + 100) by (nonlinear_arith)
        requires
            q == p * 112 / 100,
            0 <= p,
    ;
    if p == 100 {
        assert(q == 112);
        assert(payload_of(p) == 0);
        assert(percent_of(0) == 100);
    } else {
        assert(q <= 110) by (nonlinear_arith)
            requires
                100 * q <= 112 * p,
                p <= 99,
        ;
        assert(payload_of(p) == 111 - q);
        let x = (q + 1) * 100;
        assert(percent_of(111 - q) == x / 112);
        assert(x / 112 == p) by (nonlinear_arith)
            requires
                x == (q + 1) * 100,
                112 * p < 100 * q + 100,
                100 * q <= 112 * p,
                0 <= p,
        ;
    }
}

/// Device volume as a percentage (not as a payload byte).
#[derive(Clone, Copy, Debug, Default)]
pub struct Volume(u32);

impl Volume {
    /// The percentage this volume holds.
    pub closed spec fn percent(self) -> nat {
        self.0 as nat
    }

    /// The volume a payload byte stands for.
    pub closed spec fn of_payload(b: u8) -> Volume {
        Volume(percent_of(b as int) as u32)
    }

    /// The volume that holds `level` percent.
    pub closed spec fn with_percent(level: u32) -> Volume {
        Volume(level)
    }

    /// A volume of `level` percent; levels above 100 saturate when encoded.
    pub fn new(level: u32) -> (r: Self)
        ensures
            r.percent() == level,
            r == Volume::with_percent(level),
    {
        Volume(level)
    }

    /// The payload byte that sets this volume. The `- 1` offset of the
    /// encoding is kept as the device protocol uses it; whether it is
    /// intended headroom awaits confirmation on hardware.
    pub fn to_payload(&self) -> (r: u8)
        ensures
            r as int == payload_of(self.percent() as int),
    {
        let scaled: u64 = (self.0 as u64) * (VOLUME_MIN as u64) / 100;
        if scaled >= VOLUME_MIN as u64 - 1 {
            VOLUME_MAX
        } else {
            VOLUME_MIN - 1 - (scaled as u8)
        }
    }

    /// The volume a payload byte reports; bytes past `VOLUME_MIN` read as 0%.
    pub fn from_payload(value: u8) -> (r: Self)
        ensures
            r.percent() == percent_of(value as int),
            r == Volume::of_payload(value),
            r.percent() <= 100,
    {
        let clamped: u32 = if value > VOLUME_MIN { VOLUME_MIN as u32 } else { value as u32 };
        Volume((VOLUME_MIN as u32 - clamped) * 100 / (VOLUME_MIN as u32))
    }

    /// The percentage as shown to users: at least two digits, then `%`.
    pub fn label(&self) -> (r: String)
        ensures
            r@ == padded2(self.percent()) + "%"@,
    {
        let mut s = String::new();
        push_padded2(&mut s, self.0);
        s.append("%");
        assert(s@ =~= padded2(self.percent()) + "%"@);
        s
    }

    /// The percentage.
    pub fn inner(&self) -> (r: u32)
        ensures
            r == self.percent(),
    {
        self.0
    }
}

} // verus!
