use vstd::prelude::*;

verus! {

/// One addressable LED's colour: three 8-bit brightness channels.
#[derive(Clone, Copy, PartialEq, Eq, Structural, Debug)]
pub struct Color {
    pub red: u8,
    pub green: u8,
    pub blue: u8,
}

impl Color {
    pub fn new(red: u8, green: u8, blue: u8) -> (c: Color)
        ensures
            c == (Color { red, green, blue }),
    {
        Color { red, green, blue }
    }
}

/// The order in which a pixel's three channel bytes are serialised on the
/// wire; fixed by the protocol variant chosen when a transmitter is built.
#[derive(Clone, Copy, PartialEq, Eq, Structural, Debug)]
pub enum ChannelOrder {
    /// Green byte first, then red, then blue (the WS2812 family's order).
    GreenRedBlue,
    /// Red byte first, then green, then blue.
    RedGreenBlue,
}

/// The channel byte at position `k` (0, 1 or 2) of `c` under `order`.
pub open spec fn spec_channel_byte(c: Color, order: ChannelOrder, k: int) -> u8 {
    match order {
        ChannelOrder::GreenRedBlue => if k == 0 {
            c.green
        } else if k == 1 {
            c.red
        } else {
            c.blue
        },
        ChannelOrder::RedGreenBlue => if k == 0 {
            c.red
        } else if k == 1 {
            c.green
        } else {
            c.blue
        },
    }
}

/// Executable twin of `spec_channel_byte`.
pub fn channel_byte(c: Color, order: ChannelOrder, k: usize) -> (b: u8)
    requires
        k < 3,
    ensures
        b == spec_channel_byte(c, order, k as int),
{
    match order {
        ChannelOrder::GreenRedBlue => {
            if k == 0 {
                c.green
            } else if k == 1 {
                c.red
            } else {
                c.blue
            }
        },
        ChannelOrder::RedGreenBlue => {
            if k == 0 {
                c.red
            } else if k == 1 {
                c.green
            } else {
                c.blue
            }
        },
    }
}

} // verus!
