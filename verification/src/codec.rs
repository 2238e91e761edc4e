//! Command encoding and sample decoding for the ADM1191.
//!
//! The IC speaks a tiny register protocol: single command bytes select a
//! register or an operating mode, and a plain 3-byte read streams the
//! current conversion result. The 12-bit voltage and current samples are
//! packed into the frame as two whole bytes of high bits plus a shared
//! low-nibble byte.

use vstd::prelude::*;

verus! {

/// Command byte that selects the status register before a one-byte read.
pub const STATUS_READ_COMMAND: u8 = 1u8 << 6;

/// Command byte that enables current measurement (bit 0), voltage
/// measurement (bit 2) and continuous conversion (bit 4).
pub const CONTINUOUS_VOLT_CURRENT_COMMAND: u8 = (1u8 << 0) | (1u8 << 2) | (1u8 << 4);

/// The 12-bit voltage sample carried by a 3-byte frame: byte 0 holds
/// VBUS[11:4] and the upper nibble of byte 2 holds VBUS[3:0].
pub open spec fn frame_voltage(frame: Seq<u8>) -> u16
    recommends
        frame.len() == 3,
{
    ((frame[0] as u16) << 4) | (((frame[2] as u16) >> 4) & 0xF)
}

/// The 12-bit current sample carried by a 3-byte frame: byte 1 holds
/// IBUS[11:4] and the lower nibble of byte 2 holds IBUS[3:0].
pub open spec fn frame_current(frame: Seq<u8>) -> u16
    recommends
        frame.len() == 3,
{
    ((frame[1] as u16) << 4) | ((frame[2] as u16) & 0xF)
}

/// Decoding law: for every 3-byte frame `(b0, b1, b2)` the voltage is
/// `(b0 << 4) | ((b2 >> 4) & 0xF)`, the current is `(b1 << 4) | (b2 & 0xF)`,
/// and both lie in the 12-bit range `[0, 4095]`.
pub proof fn lemma_decode_bounds(b0: u8, b1: u8, b2: u8)
    ensures
        frame_voltage(seq![b0, b1, b2]) == ((b0 as u16) << 4) | (((b2 as u16) >> 4) & 0xF),
        frame_current(seq![b0, b1, b2]) == ((b1 as u16) << 4) | ((b2 as u16) & 0xF),
        frame_voltage(seq![b0, b1, b2]) <= 0xFFF,
        frame_current(seq![b0, b1, b2]) <= 0xFFF,
{
    assert(((b0 as u16) << 4) | (((b2 as u16) >> 4) & 0xF) <= 0xFFF) by (bit_vector);
    assert(((b1 as u16) << 4) | ((b2 as u16) & 0xF) <= 0xFFF) by (bit_vector);
}

/// Decode one 3-byte frame into the (voltage, current) sample pair.
///
/// Both results are 12-bit quantities widened to a 16-bit field; no
/// scaling to physical units is applied.
pub fn decode_sample(b0: u8, b1: u8, b2: u8) -> (sample: (u16, u16))
    ensures
        sample.0 == frame_voltage(seq![b0, b1, b2]),
        sample.1 == frame_current(seq![b0, b1, b2]),
        sample.0 <= 0xFFF,
        sample.1 <= 0xFFF,
{
    let voltage: u16 = ((b0 as u16) << 4) | (((b2 as u16) >> 4) & 0xF);
    let current: u16 = ((b1 as u16) << 4) | ((b2 as u16) & 0xF);
    proof {
        lemma_decode_bounds(b0, b1, b2);
    }
    (voltage, current)
}

} // verus!
