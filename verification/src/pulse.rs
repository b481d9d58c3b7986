use vstd::prelude::*;

verus! {

/// Nominal high-phase duration of a `0` bit, in nanoseconds.
pub const ZERO_HIGH_NS: u32 = 400;

/// Nominal low-phase duration of a `0` bit, in nanoseconds.
pub const ZERO_LOW_NS: u32 = 850;

/// Nominal high-phase duration of a `1` bit, in nanoseconds.
pub const ONE_HIGH_NS: u32 = 800;

/// Nominal low-phase duration of a `1` bit, in nanoseconds.
pub const ONE_LOW_NS: u32 = 450;

/// How far a phase may drift from its nominal duration and still be read
/// correctly by the LED chain, in nanoseconds.
pub const TOLERANCE_NS: u32 = 150;

/// Every bit, `0` or `1`, occupies the same total time on the wire.
pub const BIT_PERIOD_NS: u64 = 1250;

/// Minimum time the line must stay low after the last bit of a frame before
/// the chain latches the frame and a new transmission may begin.
pub const RESET_GAP_NS: u64 = 50_000;

/// One bit-transition on the data line: the line is driven high for
/// `high_ns` nanoseconds, then low for `low_ns` nanoseconds.
#[derive(Clone, Copy, PartialEq, Eq, Structural, Debug)]
pub struct Pulse {
    pub high_ns: u32,
    pub low_ns: u32,
}

/// The pulse that encodes a single bit.
pub open spec fn spec_pulse_for_bit(b: bool) -> Pulse {
    if b {
        Pulse { high_ns: ONE_HIGH_NS, low_ns: ONE_LOW_NS }
    } else {
        Pulse { high_ns: ZERO_HIGH_NS, low_ns: ZERO_LOW_NS }
    }
}

/// Executable twin of `spec_pulse_for_bit`.
pub fn pulse_for_bit(b: bool) -> (p: Pulse)
    ensures
        p == spec_pulse_for_bit(b),
{
    if b {
        Pulse { high_ns: ONE_HIGH_NS, low_ns: ONE_LOW_NS }
    } else {
        Pulse { high_ns: ZERO_HIGH_NS, low_ns: ZERO_LOW_NS }
    }
}

/// For either bit value, the emitted high phase lies inside the protocol's
/// tolerance window for that bit, the low phase lies inside the
/// complementary window, and the two phases always add up to one bit period.
/// The windows are the nominal datasheet durations widened by
/// `TOLERANCE_NS` on each side.
pub proof fn lemma_pulse_timing(b: bool)
    ensures
        b ==> 650 <= spec_pulse_for_bit(b).high_ns <= 950,
        b ==> 300 <= spec_pulse_for_bit(b).low_ns <= 600,
        !b ==> 250 <= spec_pulse_for_bit(b).high_ns <= 550,
        !b ==> 700 <= spec_pulse_for_bit(b).low_ns <= 1000,
        spec_pulse_for_bit(b).high_ns + spec_pulse_for_bit(b).low_ns == BIT_PERIOD_NS,
{
}

} // verus!
