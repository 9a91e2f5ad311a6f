//! Capture speeds: wire bitmasks, two-bit state codes, and the decoding of
//! the one-byte "supported speeds" response.

use vstd::prelude::*;

verus! {

/// A capture speed supported by the analyzer.
#[derive(Copy, Clone, Debug, PartialEq, Eq, Structural)]
pub enum Speed {
    /// Match whatever speed the target negotiates.
    Auto,
    /// High speed (480Mbps).
    High,
    /// Full speed (12Mbps).
    Full,
    /// Low speed (1.5Mbps).
    Low,
}

/// The bitmask bit for a speed in the device's "supported speeds" byte.
pub open spec fn spec_mask(s: Speed) -> u8 {
    match s {
        Speed::Auto => 0x01,
        Speed::Low => 0x02,
        Speed::Full => 0x04,
        Speed::High => 0x08,
    }
}

/// The two-bit code for a speed in the capture state byte.
pub open spec fn spec_code(s: Speed) -> u8 {
    match s {
        Speed::High => 0,
        Speed::Full => 1,
        Speed::Low => 2,
        Speed::Auto => 3,
    }
}

/// The speed a two-bit state code stands for; out-of-range codes fall back
/// to High.
pub open spec fn spec_from_code(code: u8) -> Speed {
    if code == 1 {
        Speed::Full
    } else if code == 2 {
        Speed::Low
    } else if code == 3 {
        Speed::Auto
    } else {
        Speed::High
    }
}

/// Whether a speed's bit is set in a "supported speeds" response byte.
pub open spec fn flagged(byte: u8, s: Speed) -> bool {
    byte & spec_mask(s) != 0
}

/// The fixed order in which decoded speeds are reported.
pub open spec fn speed_order() -> Seq<Speed> {
    seq![Speed::Auto, Speed::High, Speed::Full, Speed::Low]
}

/// The speeds flagged in a response byte, in the fixed reporting order.
pub open spec fn decoded_speeds(byte: u8) -> Seq<Speed> {
    (if flagged(byte, Speed::Auto) {
        seq![Speed::Auto]
    } else {
        Seq::empty()
    }) + (if flagged(byte, Speed::High) {
        seq![Speed::High]
    } else {
        Seq::empty()
    }) + (if flagged(byte, Speed::Full) {
        seq![Speed::Full]
    } else {
        Seq::empty()
    }) + (if flagged(byte, Speed::Low) {
        seq![Speed::Low]
    } else {
        Seq::empty()
    })
}

impl Speed {
    /// Human-readable description of the speed.
    pub fn description(&self) -> (r: &'static str)
        ensures
            r@ == match *self {
                Speed::Auto => "Auto"@,
                Speed::High => "High (480Mbps)"@,
                Speed::Full => "Full (12Mbps)"@,
                Speed::Low => "Low (1.5Mbps)"@,
            },
    {
        match self {
            Speed::Auto => "Auto",
            Speed::High => "High (480Mbps)",
            Speed::Full => "Full (12Mbps)",
            Speed::Low => "Low (1.5Mbps)",
        }
    }

    /// The bitmask bit for this speed in the "supported speeds" byte.
    pub fn mask(&self) -> (r: u8)
        ensures
            r == spec_mask(*self),
    {
        match self {
            Speed::Auto => 0x01,
            Speed::Low => 0x02,
            Speed::Full => 0x04,
            Speed::High => 0x08,
        }
    }

    /// The two-bit code for this speed in the capture state byte.
    pub fn code(&self) -> (r: u8)
        ensures
            r == spec_code(*self),
    {
        match self {
            Speed::High => 0,
            Speed::Full => 1,
            Speed::Low => 2,
            Speed::Auto => 3,
        }
    }

    /// The speed a two-bit state code stands for; out-of-range codes fall
    /// back to High.
    pub fn from_code(code: u8) -> (r: Speed)
        ensures
            r == spec_from_code(code),
    {
        if code == 1 {
            Speed::Full
        } else if code == 2 {
            Speed::Low
        } else if code == 3 {
            Speed::Auto
        } else {
            Speed::High
        }
    }
}

/// Decode a "supported speeds" response byte into the list of flagged
/// speeds, in the fixed order Auto, High, Full, Low.
pub fn speeds_from_mask(byte: u8) -> (r: Vec<Speed>)
    ensures
        r@ == decoded_speeds(byte),
{
    let mut speeds: Vec<Speed> = Vec::new();
    if byte & Speed::Auto.mask() != 0 {
        speeds.push(Speed::Auto);
    }
    if byte & Speed::High.mask() != 0 {
        speeds.push(Speed::High);
    }
    if byte & Speed::Full.mask() != 0 {
        speeds.push(Speed::Full);
    }
    if byte & Speed::Low.mask() != 0 {
        speeds.push(Speed::Low);
    }
    proof {
        assert(speeds@ =~= decoded_speeds(byte));
    }
    speeds
}

/// The place of a speed in the fixed reporting order.
pub open spec fn order_position(s: Speed) -> int {
    match s {
        Speed::Auto => 0,
        Speed::High => 1,
        Speed::Full => 2,
        Speed::Low => 3,
    }
}

/// The decoded speed list contains exactly the flagged speeds, without
/// duplicates, and preserves the fixed order Auto, High, Full, Low.
pub proof fn lemma_decoded_speeds_exact(byte: u8)
    ensures
        forall|s: Speed| decoded_speeds(byte).contains(s) <==> flagged(byte, s),
        decoded_speeds(byte).no_duplicates(),
        forall|i: int, j: int|
            0 <= i < j < decoded_speeds(byte).len() ==> order_position(
                decoded_speeds(byte)[i],
            ) < order_position(decoded_speeds(byte)[j]),
{
    let d = decoded_speeds(byte);
    assert(forall|s: Speed| flagged(byte, s) ==> d.contains(s)) by {
        assert forall|s: Speed| flagged(byte, s) implies d.contains(s) by {
            match s {
                Speed::Auto => {
                    assert(d[0] == Speed::Auto);
                }
                Speed::High => {
                    if flagged(byte, Speed::Auto) {
                        assert(d[1] == Speed::High);
                    } else {
                        assert(d[0] == Speed::High);
                    }
                }
                Speed::Full => {
                    let i = (if flagged(byte, Speed::Auto) {
                        1int
                    } else {
                        0int
                    }) + (if flagged(byte, Speed::High) {
                        1int
                    } else {
                        0int
                    });
                    assert(d[i] == Speed::Full);
                }
                Speed::Low => {
                    let i = (if flagged(byte, Speed::Auto) {
                        1int
                    } else {
                        0int
                    }) + (if flagged(byte, Speed::High) {
                        1int
                    } else {
                        0int
                    }) + (if flagged(byte, Speed::Full) {
                        1int
                    } else {
                        0int
                    });
                    assert(d[i] == Speed::Low);
                }
            }
        }
    }
}

} // verus!
