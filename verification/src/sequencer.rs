//! Color sequencer: a palette index advanced one step per external trigger.
//!
//! The state machine's states are the palette indices; a trigger transmits
//! the current entry and advances the index, wrapping to the front after the
//! last entry. The trigger itself (a falling edge on the input pin) and the
//! clearing of its pending flag stay with the caller; this module holds the
//! decision: which color each trigger sends and which state follows.

use crate::color::Color;
use crate::pulse::{frame_pairs, transmit, PulseTrain, RESET_GAP_NS};
use vstd::prelude::*;

verus! {

/// The index one trigger later: one step forward, wrapping at `len`.
pub open spec fn step_index(i: int, len: int) -> int {
    if i + 1 >= len {
        0
    } else {
        i + 1
    }
}

/// The index `n` triggers later.
pub open spec fn index_after(start: int, n: nat, len: int) -> int
    decreases n,
{
    if n == 0 {
        start
    } else {
        step_index(index_after(start, (n - 1) as nat, len), len)
    }
}

/// The palette position after any number of triggers is the start offset by
/// the trigger count, modulo the palette length.
pub proof fn lemma_index_after_mod(start: int, n: nat, len: int)
    requires
        len > 0,
        0 <= start < len,
    ensures
        0 <= index_after(start, n, len) < len,
        index_after(start, n, len) == (start + n) % len,
    decreases n,
{
    if n == 0 {
        vstd::arithmetic::div_mod::lemma_small_mod(start as nat, len as nat);
    } else {
        lemma_index_after_mod(start, (n - 1) as nat, len);
        let prev = index_after(start, (n - 1) as nat, len);
        vstd::arithmetic::div_mod::lemma_add_mod_noop_right(1, start + n - 1, len);
        assert((1 + prev) % len == (start + n) % len);
        if prev + 1 < len {
            vstd::arithmetic::div_mod::lemma_small_mod((prev + 1) as nat, len as nat);
        } else {
            vstd::arithmetic::div_mod::lemma_mod_self_0(len);
        }
    }
}

/// A full pass: as many triggers as the palette has entries return the
/// sequencer to the index it started from.
pub proof fn lemma_full_cycle(start: int, len: int)
    requires
        0 <= start < len,
    ensures
        index_after(start, len as nat, len) == start,
{
    lemma_index_after_mod(start, len as nat, len);
    vstd::arithmetic::div_mod::lemma_add_mod_noop_right(start, len, len);
    vstd::arithmetic::div_mod::lemma_mod_self_0(len);
    vstd::arithmetic::div_mod::lemma_small_mod(start as nat, len as nat);
}

/// The color the `k`-th trigger of a run sends is the palette entry at the
/// start offset by `k`, modulo the palette length.
pub proof fn lemma_trigger_color(palette: Seq<Color>, start: int, k: nat)
    requires
        palette.len() > 0,
        0 <= start < palette.len(),
    ensures
        palette[index_after(start, k, palette.len() as int)] == palette[(start + k) % (
        palette.len() as int)],
{
    lemma_index_after_mod(start, k, palette.len() as int);
}

/// The sequencer: a fixed palette and the index of the entry the next
/// trigger will send.
pub struct Sequencer {
    palette: Vec<Color>,
    index: usize,
}

impl Sequencer {
    /// The palette entries, in order.
    pub closed spec fn colors(&self) -> Seq<Color> {
        self.palette@
    }

    /// The current position in the palette.
    pub closed spec fn position(&self) -> int {
        self.index as int
    }

    /// Well-formed: a non-empty palette and an index inside it.
    pub closed spec fn wf(&self) -> bool {
        &&& self.palette@.len() > 0
        &&& self.index < self.palette@.len()
    }

    /// Builds a sequencer over `palette`, standing at `start`.
    pub fn new(palette: Vec<Color>, start: usize) -> (s: Sequencer)
        requires
            palette@.len() > 0,
            start < palette@.len(),
        ensures
            s.wf(),
            s.colors() == palette@,
            s.position() == start,
    {
        Sequencer { palette, index: start }
    }

    /// The number of palette entries.
    pub fn palette_len(&self) -> (n: usize)
        ensures
            n == self.colors().len(),
    {
        self.palette.len()
    }

    /// The index the next trigger will send from.
    pub fn current_index(&self) -> (i: usize)
        ensures
            i == self.position(),
    {
        self.index
    }

    /// The color the next trigger will send.
    pub fn current_color(&self) -> (c: Color)
        requires
            self.wf(),
        ensures
            c == self.colors()[self.position()],
    {
        self.palette[self.index]
    }

    /// One trigger's decision: returns the color to send now and advances
    /// the index one step, wrapping past the last entry. The palette never
    /// changes.
    pub fn trigger(&mut self) -> (c: Color)
        requires
            old(self).wf(),
        ensures
            final(self).wf(),
            final(self).colors() == old(self).colors(),
            final(self).position() == step_index(old(self).position(), old(self).colors().len() as int),
            c == old(self).colors()[old(self).position()],
    {
        let c = self.palette[self.index];
        let len = self.palette.len();
        if self.index + 1 >= len {
            self.index = 0;
        } else {
            self.index = self.index + 1;
        }
        c
    }

    /// One trigger including the transmission it causes: builds the frame
    /// of the current color with `hold_ns` as the intended trailing hold
    /// (raised to the reset gap when short), then advances the index.
    pub fn trigger_frame(&mut self, hold_ns: u32) -> (t: PulseTrain)
        requires
            old(self).wf(),
        ensures
            final(self).wf(),
            final(self).colors() == old(self).colors(),
            final(self).position() == step_index(old(self).position(), old(self).colors().len() as int),
            t.pairs@ == frame_pairs(old(self).colors()[old(self).position()]),
            t.rest_ns == if hold_ns >= RESET_GAP_NS {
                hold_ns
            } else {
                RESET_GAP_NS
            },
    {
        let c = self.trigger();
        transmit(&c, hold_ns)
    }

    /// The startup transmission: the frame of the current color, sent once
    /// so the LED shows a known state before any trigger is processed. The
    /// index does not move.
    pub fn startup_frame(&self, hold_ns: u32) -> (t: PulseTrain)
        requires
            self.wf(),
        ensures
            t.pairs@ == frame_pairs(self.colors()[self.position()]),
            t.rest_ns == if hold_ns >= RESET_GAP_NS {
                hold_ns
            } else {
                RESET_GAP_NS
            },
    {
        let c = self.current_color();
        transmit(&c, hold_ns)
    }
}

} // verus!
