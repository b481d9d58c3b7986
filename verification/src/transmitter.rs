use vstd::prelude::*;

use crate::color::{ChannelOrder, Color};
use crate::encoder::{encode_frame, spec_frame_pulses};
use crate::pulse::{Pulse, BIT_PERIOD_NS, RESET_GAP_NS};

verus! {

/// Largest chain capacity a transmitter may be configured with; keeps every
/// duration computed from a frame length inside a `u64` nanosecond count.
pub const MAX_CHAIN_CAPACITY: usize = 0xFFFF_FFFF;

/// Latest instant, in nanoseconds, at which a transmission may start: late
/// enough for centuries of uptime, yet early enough that the busy deadline
/// of a maximal frame still fits in a `u64`.
pub const MAX_TIMESTAMP_NS: u64 = 0xFFFF_FFFF_FFFF_FFFF - 130_000_000_000_000;

/// Why a call to `transmit` emitted nothing.
#[derive(Clone, Copy, PartialEq, Eq, Structural, Debug)]
pub enum TransmitError {
    /// A prior transmission on this line has not finished draining, or its
    /// reset gap has not yet elapsed; wait and resend the identical frame.
    Busy,
    /// The frame holds more pixels than the configured chain capacity;
    /// resending the same frame can never succeed.
    CapacityExceeded,
}

/// The instant at which the last pulse of a frame of `len` pixels, started
/// at `start_ns`, has drained and the line has returned to idle-low.
pub open spec fn spec_frame_end_ns(start_ns: u64, len: int) -> int {
    start_ns + 24 * (BIT_PERIOD_NS as int) * len
}

/// The earliest instant at which a subsequent transmission may be accepted:
/// the frame's end plus the protocol's minimum reset gap.
pub open spec fn spec_busy_deadline_ns(start_ns: u64, len: int) -> int {
    spec_frame_end_ns(start_ns, len) + RESET_GAP_NS
}

/// Owner of one LED data line. It serialises frames into pulse trains and
/// refuses a new transmission until the previous frame's pulses and reset
/// gap have fully elapsed.
pub struct Transmitter {
    cap: usize,
    ord: ChannelOrder,
    busy_until: u64,
}

impl Transmitter {
    #[verifier::type_invariant]
    spec fn type_inv(self) -> bool {
        self.cap <= MAX_CHAIN_CAPACITY
    }

    /// The configured chain capacity: the most pixels one frame may hold.
    pub closed spec fn capacity(self) -> int {
        self.cap as int
    }

    /// The channel order selected at construction.
    pub closed spec fn order(self) -> ChannelOrder {
        self.ord
    }

    /// The instant until which the line is considered busy: transmissions
    /// at any earlier instant are refused.
    pub closed spec fn busy_until_ns(self) -> int {
        self.busy_until as int
    }

    /// Build a transmitter for a chain of at most `capacity` pixels, with
    /// the line idle, so that the first transmission is accepted at any
    /// instant.
    pub fn new(capacity: usize, order: ChannelOrder) -> (t: Transmitter)
        requires
            capacity <= MAX_CHAIN_CAPACITY,
        ensures
            t.capacity() == capacity,
            t.order() == order,
            t.busy_until_ns() == 0,
    {
        Transmitter { cap: capacity, ord: order, busy_until: 0 }
    }

    /// The configured chain capacity.
    pub fn chain_capacity(&self) -> (n: usize)
        ensures
            n == self.capacity(),
    {
        self.cap
    }

    /// The channel order selected at construction.
    pub fn channel_order(&self) -> (o: ChannelOrder)
        ensures
            o == self.order(),
    {
        self.ord
    }

    /// The instant until which the line is busy; `0` on a fresh line.
    pub fn busy_deadline_ns(&self) -> (t: u64)
        ensures
            t == self.busy_until_ns(),
    {
        self.busy_until
    }

    /// Emit one frame on the line, all or nothing.
    ///
    /// At `now_ns` before the previous frame's busy deadline the call is
    /// refused with `Busy` and nothing changes. A frame longer than the
    /// configured capacity is refused with `CapacityExceeded` and nothing
    /// changes. Otherwise the call returns the frame's full pulse train —
    /// `24 × frame.len()` bit-transitions, channels in the configured
    /// order, most significant bit first — and the line is busy until the
    /// train has drained plus the reset gap.
    pub fn transmit(&mut self, frame: &Vec<Color>, now_ns: u64) -> (r: Result<
        Vec<Pulse>,
        TransmitError,
    >)
        requires
            now_ns <= MAX_TIMESTAMP_NS,
        ensures
            final(self).capacity() == old(self).capacity(),
            final(self).order() == old(self).order(),
            now_ns < old(self).busy_until_ns() ==> r == Err::<Vec<Pulse>, TransmitError>(
                TransmitError::Busy,
            ) && final(self).busy_until_ns() == old(self).busy_until_ns(),
            now_ns >= old(self).busy_until_ns() && frame@.len() > old(self).capacity() ==> r
                == Err::<Vec<Pulse>, TransmitError>(TransmitError::CapacityExceeded)
                && final(self).busy_until_ns() == old(self).busy_until_ns(),
            now_ns >= old(self).busy_until_ns() && frame@.len() <= old(self).capacity() ==> (r
                matches Ok(pulses) && pulses@ == spec_frame_pulses(frame@, old(self).order())),
            now_ns >= old(self).busy_until_ns() && frame@.len() <= old(self).capacity()
                ==> final(self).busy_until_ns() == spec_busy_deadline_ns(
                now_ns,
                frame@.len() as int,
            ),
    {
        proof {
            use_type_invariant(&*self);
        }
        if now_ns < self.busy_until {
            return Err(TransmitError::Busy);
        }
        if frame.len() > self.cap {
            return Err(TransmitError::CapacityExceeded);
        }
        let pulses = encode_frame(frame, self.ord);
        let drain_ns: u64 = (frame.len() as u64) * 24 * BIT_PERIOD_NS;
        proof {
            let len = frame@.len() as int;
            assert(drain_ns == 24 * (BIT_PERIOD_NS as int) * len) by (nonlinear_arith)
                requires
                    drain_ns == (len * 24) * (BIT_PERIOD_NS as int),
            ;
        }
        self.busy_until = now_ns + drain_ns + RESET_GAP_NS;
        Ok(pulses)
    }
}

/// After an accepted transmission of `len` pixels starting at `start_ns`,
/// any transmission accepted at `accept_ns` — no earlier than the busy
/// deadline — finds that the line has been idle-low for at least the
/// protocol's minimum reset gap since the last pulse drained.
pub proof fn lemma_reset_gap_before_acceptance(start_ns: u64, len: int, accept_ns: u64)
    requires
        0 <= len,
        accept_ns >= spec_busy_deadline_ns(start_ns, len),
    ensures
        accept_ns - spec_frame_end_ns(start_ns, len) >= RESET_GAP_NS,
{
}

} // verus!
