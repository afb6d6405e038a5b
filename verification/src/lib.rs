//! Driver core for a single-wire addressable GRB LED (WS2812/SK6812 class).
//!
//! The crate models the data side of the protocol: turning a 3-byte
//! green-red-blue color into 24 bit-symbols, turning those symbols into a
//! train of high/low pulse pairs with the protocol's nominal widths and a
//! guaranteed inter-frame reset gap, classifying a received train back into
//! a color, and advancing a palette index one step per external trigger.
//! Everything that touches hardware (pin toggling, busy-wait delays,
//! interrupt flags) stays outside this crate; callers replay the computed
//! pulse train on their target.

pub mod color;
pub mod delay;
pub mod encoder;
pub mod pulse;
pub mod sequencer;
