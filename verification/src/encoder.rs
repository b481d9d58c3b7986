use vstd::prelude::*;

use crate::color::{channel_byte, spec_channel_byte, ChannelOrder, Color};
use crate::pulse::{pulse_for_bit, spec_pulse_for_bit, Pulse};

verus! {

/// Bit `j` of `byte`, counting from the most significant bit: position 0 is
/// the bit of weight 128.
pub open spec fn spec_bit(byte: u8, j: int) -> bool {
    (byte >> ((7 - j) as u8)) & 1 == 1
}

/// Bit `k` of the serialised frame. Bits are grouped 24 per pixel and 8 per
/// channel byte, channels following `order`, each byte most significant bit
/// first.
pub open spec fn spec_frame_bit(frame: Seq<Color>, order: ChannelOrder, k: int) -> bool {
    spec_bit(spec_channel_byte(frame[k / 24], order, (k % 24) / 8), k % 8)
}

/// The full pulse train for `frame`: one pulse per bit, 24 bits per pixel.
pub open spec fn spec_frame_pulses(frame: Seq<Color>, order: ChannelOrder) -> Seq<Pulse> {
    Seq::new(frame.len() * 24, |k: int| spec_pulse_for_bit(spec_frame_bit(frame, order, k)))
}

/// A frame's pulse train holds exactly `24 × frame.len()` bit-transitions,
/// and the transition for pixel `i`, channel position `c`, bit position `j`
/// encodes exactly bit `j` (most significant bit first) of that pixel's
/// channel byte under the configured channel order.
pub proof fn lemma_frame_layout(frame: Seq<Color>, order: ChannelOrder, i: int, c: int, j: int)
    requires
        0 <= i < frame.len(),
        0 <= c < 3,
        0 <= j < 8,
    ensures
        spec_frame_pulses(frame, order).len() == 24 * frame.len(),
        spec_frame_pulses(frame, order)[24 * i + 8 * c + j] == spec_pulse_for_bit(
            spec_bit(spec_channel_byte(frame[i], order, c), j),
        ),
{
    let k = 24 * i + 8 * c + j;
    assert(k / 24 == i && k % 24 == 8 * c + j) by (nonlinear_arith)
        requires
            0 <= i,
            0 <= c < 3,
            0 <= j < 8,
            k == 24 * i + 8 * c + j,
    ;
    assert((8 * c + j) / 8 == c && (8 * c + j) % 8 == j) by (nonlinear_arith)
        requires
            0 <= c < 3,
            0 <= j < 8,
    ;
}

/// Serialise a frame into its pulse train, pixel by pixel, channel byte by
/// channel byte, most significant bit first.
pub fn encode_frame(frame: &Vec<Color>, order: ChannelOrder) -> (pulses: Vec<Pulse>)
    ensures
        pulses@ == spec_frame_pulses(frame@, order),
{
    let mut pulses: Vec<Pulse> = Vec::new();
    let mut i: usize = 0;
    while i < frame.len()
        invariant
            i <= frame@.len(),
            pulses@.len() == 24 * i,
            forall|k: int|
                0 <= k < pulses@.len() ==> pulses@[k] == spec_frame_pulses(frame@, order)[k],
        decreases frame@.len() - i,
    {
        let c = frame[i];
        let mut ch: usize = 0;
        while ch < 3
            invariant
                i < frame@.len(),
                ch <= 3,
                c == frame@[i as int],
                pulses@.len() == 24 * i + 8 * ch,
                forall|k: int|
                    0 <= k < pulses@.len() ==> pulses@[k] == spec_frame_pulses(frame@, order)[k],
            decreases 3 - ch,
        {
            let byte = channel_byte(c, order, ch);
            let mut j: usize = 0;
            while j < 8
                invariant
                    i < frame@.len(),
                    ch < 3,
                    j <= 8,
                    c == frame@[i as int],
                    byte == spec_channel_byte(frame@[i as int], order, ch as int),
                    pulses@.len() == 24 * i + 8 * ch + j,
                    forall|k: int|
                        0 <= k < pulses@.len() ==> pulses@[k] == spec_frame_pulses(
                            frame@,
                            order,
                        )[k],
                decreases 8 - j,
            {
                let shift: u8 = (7 - j) as u8;
                let bit: bool = ((byte >> shift) & 1) == 1;
                proof {
                    assert(bit == spec_bit(byte, j as int));
                    lemma_frame_layout(frame@, order, i as int, ch as int, j as int);
                }
                pulses.push(pulse_for_bit(bit));
                j += 1;
            }
            ch += 1;
        }
        i += 1;
    }
    proof {
        assert(pulses@ =~= spec_frame_pulses(frame@, order));
    }
    pulses
}

} // verus!
