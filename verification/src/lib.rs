//! Pulse-width encoder and frame transmitter for single-wire addressable
//! RGB LEDs of the WS2812 family, together with the small fixed scene and
//! colour palette that the demo application cycles through.

pub mod color;
pub mod encoder;
pub mod pulse;
pub mod scene;
pub mod transmitter;
