//! Pulse transmitter model: bit-symbols become timed high/low pulse pairs.
//!
//! Every symbol is sent as one high pulse followed by one low pulse; the
//! pair's durations tell a `1` from a `0`. After the 24 pairs of one color
//! the line must stay low for at least the protocol's reset gap, or the
//! chain latches only part of the frame. This module builds the train as
//! data with the nominal widths, checks a train for conformance, and
//! decodes a train back into a color by classifying each high time as long
//! or short.

use crate::color::Color;
use crate::encoder::{color_of_symbols, color_symbols, decode_symbols, encode};
use vstd::prelude::*;

verus! {

/// High time of a `1` symbol, nanoseconds.
pub const ONE_HIGH_NS: u32 = 700;

/// Low time of a `1` symbol, nanoseconds.
pub const ONE_LOW_NS: u32 = 600;

/// High time of a `0` symbol, nanoseconds.
pub const ZERO_HIGH_NS: u32 = 350;

/// Low time of a `0` symbol, nanoseconds.
pub const ZERO_LOW_NS: u32 = 800;

/// Minimum low hold between two frames, nanoseconds (50 microseconds).
pub const RESET_GAP_NS: u32 = 50_000;

/// A high time at or above this is read as a `1`, below as a `0`:
/// the midpoint between the two nominal high times.
pub const LONG_HIGH_THRESHOLD_NS: u32 = (ZERO_HIGH_NS + ONE_HIGH_NS) / 2;

/// One transmitted symbol: how long the pin is held high, then low.
#[derive(Clone, Copy, Debug, PartialEq, Eq, Structural)]
pub struct PulsePair {
    /// High time in nanoseconds.
    pub high_ns: u32,
    /// Low time in nanoseconds.
    pub low_ns: u32,
}

/// One frame on the wire: 24 pulse pairs and the low hold that follows.
#[derive(Clone, Debug, PartialEq, Eq)]
pub struct PulseTrain {
    /// The pulse pairs, one per bit-symbol, in transmission order.
    pub pairs: Vec<PulsePair>,
    /// Low time after the last pair, in nanoseconds.
    pub rest_ns: u32,
}

/// The nominal pulse pair for one symbol.
pub open spec fn pulse_of_symbol(s: bool) -> PulsePair {
    if s {
        PulsePair { high_ns: ONE_HIGH_NS, low_ns: ONE_LOW_NS }
    } else {
        PulsePair { high_ns: ZERO_HIGH_NS, low_ns: ZERO_LOW_NS }
    }
}

/// The 24 pulse pairs of one color's frame.
pub open spec fn frame_pairs(c: Color) -> Seq<PulsePair> {
    color_symbols(c).map(|k: int, s: bool| pulse_of_symbol(s))
}

/// Whether a pair's high time reads as a `1`.
pub open spec fn is_long_high(p: PulsePair) -> bool {
    p.high_ns >= LONG_HIGH_THRESHOLD_NS
}

/// The bit-symbols a train of pairs is read as.
pub open spec fn classified_symbols(pairs: Seq<PulsePair>) -> Seq<bool> {
    pairs.map(|k: int, p: PulsePair| is_long_high(p))
}

/// A conformant frame: exactly 24 pairs, every pair one of the two nominal
/// pairs, and the trailing low hold at least the reset gap.
pub open spec fn frame_conformant(pairs: Seq<PulsePair>, rest_ns: u32) -> bool {
    &&& pairs.len() == 24
    &&& forall|k: int|
        0 <= k < pairs.len() ==> (#[trigger] pairs[k]) == pulse_of_symbol(true) || pairs[k]
            == pulse_of_symbol(false)
    &&& rest_ns >= RESET_GAP_NS
}

/// The nominal pulse pair for one symbol, as a value.
pub fn pulse_for_symbol(s: bool) -> (p: PulsePair)
    ensures
        p == pulse_of_symbol(s),
{
    if s {
        PulsePair { high_ns: ONE_HIGH_NS, low_ns: ONE_LOW_NS }
    } else {
        PulsePair { high_ns: ZERO_HIGH_NS, low_ns: ZERO_LOW_NS }
    }
}

/// Builds the full pulse train for one color.
///
/// `hold_ns` is how long the caller intends to leave the line low after the
/// frame; the train's trailing hold is that time, raised to the protocol's
/// reset gap when it falls short, so a produced train never violates the
/// inter-frame minimum.
pub fn transmit(c: &Color, hold_ns: u32) -> (t: PulseTrain)
    ensures
        t.pairs@ == frame_pairs(*c),
        t.pairs@.len() == 24,
        t.rest_ns == if hold_ns >= RESET_GAP_NS {
            hold_ns
        } else {
            RESET_GAP_NS
        },
        t.rest_ns >= RESET_GAP_NS,
{
    let symbols = encode(c);
    let mut pairs: Vec<PulsePair> = Vec::new();
    let mut k: usize = 0;
    while k < symbols.len()
        invariant
            symbols@ == color_symbols(*c),
            symbols@.len() == 24,
            k <= 24,
            pairs@ == frame_pairs(*c).subrange(0, k as int),
        decreases 24 - k,
    {
        let p = pulse_for_symbol(symbols[k]);
        assert(p == frame_pairs(*c)[k as int]);
        pairs.push(p);
        assert(pairs@ =~= frame_pairs(*c).subrange(0, k as int + 1));
        k = k + 1;
    }
    assert(pairs@ =~= frame_pairs(*c));
    let rest_ns: u32 = if hold_ns >= RESET_GAP_NS {
        hold_ns
    } else {
        RESET_GAP_NS
    };
    PulseTrain { pairs, rest_ns }
}

/// Checks a train for conformance: the shape a receiver is owed.
///
/// Returns `true` exactly when the train has 24 pairs, each with one of the
/// two nominal width pairs, and an inter-frame low hold of at least the
/// reset gap. A train whose hold falls below the gap is always rejected.
pub fn check_conformance(t: &PulseTrain) -> (ok: bool)
    ensures
        ok == frame_conformant(t.pairs@, t.rest_ns),
{
    if t.pairs.len() != 24 {
        return false;
    }
    if t.rest_ns < RESET_GAP_NS {
        return false;
    }
    let mut k: usize = 0;
    while k < t.pairs.len()
        invariant
            t.pairs@.len() == 24,
            k <= 24,
            forall|j: int|
                0 <= j < k ==> (#[trigger] t.pairs@[j]) == pulse_of_symbol(true) || t.pairs@[j]
                    == pulse_of_symbol(false),
        decreases 24 - k,
    {
        let p = t.pairs[k];
        let is_one = p.high_ns == ONE_HIGH_NS && p.low_ns == ONE_LOW_NS;
        let is_zero = p.high_ns == ZERO_HIGH_NS && p.low_ns == ZERO_LOW_NS;
        if !is_one && !is_zero {
            return false;
        }
        k = k + 1;
    }
    true
}

/// Decodes a pulse train back into a color.
///
/// Each pair's high time is classified as long or short against the
/// threshold; the 24 resulting symbols are read as three bytes in wire
/// order. Returns `Some` exactly when the train has 24 pairs, `None`
/// otherwise; pulse widths themselves never make decoding fail, only
/// change which symbols are read.
pub fn decode(t: &PulseTrain) -> (r: Option<Color>)
    ensures
        t.pairs@.len() == 24 ==> r == Some(color_of_symbols(classified_symbols(t.pairs@))),
        t.pairs@.len() != 24 ==> r is None,
{
    if t.pairs.len() != 24 {
        return None;
    }
    let mut symbols: Vec<bool> = Vec::new();
    let mut k: usize = 0;
    while k < t.pairs.len()
        invariant
            t.pairs@.len() == 24,
            k <= 24,
            symbols@ == classified_symbols(t.pairs@).subrange(0, k as int),
        decreases 24 - k,
    {
        let s: bool = t.pairs[k].high_ns >= LONG_HIGH_THRESHOLD_NS;
        assert(s == classified_symbols(t.pairs@)[k as int]);
        symbols.push(s);
        assert(symbols@ =~= classified_symbols(t.pairs@).subrange(0, k as int + 1));
        k = k + 1;
    }
    assert(symbols@ =~= classified_symbols(t.pairs@));
    Some(decode_symbols(&symbols))
}

/// Round trip over the wire: classifying a color's own frame reads back
/// exactly the color's symbols, and decoding them gives the color back,
/// for every color.
pub proof fn lemma_frame_round_trip(c: Color)
    ensures
        frame_pairs(c).len() == 24,
        classified_symbols(frame_pairs(c)) == color_symbols(c),
        color_of_symbols(classified_symbols(frame_pairs(c))) == c,
{
    assert forall|k: int| 0 <= k < 24 implies #[trigger] classified_symbols(frame_pairs(c))[k]
        == color_symbols(c)[k] by {
        let s = color_symbols(c)[k];
        assert(frame_pairs(c)[k] == pulse_of_symbol(s));
        assert(is_long_high(pulse_of_symbol(s)) == s);
    }
    assert(classified_symbols(frame_pairs(c)) =~= color_symbols(c));
    crate::encoder::lemma_color_symbols_invert(c);
}

/// Transmission is a function of the color alone: two frames built for the
/// same color are bit-identical pulse trains, so sending a color twice
/// (each frame followed by its reset hold) repeats the same waveform.
pub proof fn lemma_repeat_transmission(c: Color, first: PulseTrain, second: PulseTrain)
    requires
        first.pairs@ == frame_pairs(c),
        second.pairs@ == frame_pairs(c),
        first.rest_ns == second.rest_ns,
    ensures
        first.pairs@ == second.pairs@,
        first.rest_ns == second.rest_ns,
{
}

/// A train whose inter-frame low hold is below the protocol minimum is
/// never conformant, whatever its pairs hold.
pub proof fn lemma_short_gap_rejected(pairs: Seq<PulsePair>, rest_ns: u32)
    requires
        rest_ns < RESET_GAP_NS,
    ensures
        !frame_conformant(pairs, rest_ns),
{
}

/// Every frame the transmitter builds passes the conformance check, as long
/// as its trailing hold reaches the reset gap.
pub proof fn lemma_frame_conformant(c: Color, rest_ns: u32)
    requires
        rest_ns >= RESET_GAP_NS,
    ensures
        frame_conformant(frame_pairs(c), rest_ns),
{
    assert forall|k: int| 0 <= k < frame_pairs(c).len() implies (#[trigger] frame_pairs(c)[k])
        == pulse_of_symbol(true) || frame_pairs(c)[k] == pulse_of_symbol(false) by {
        let s = color_symbols(c)[k];
        assert(frame_pairs(c)[k] == pulse_of_symbol(s));
    }
}

} // verus!
