//! Bit encoder: a 3-byte color becomes 24 bit-symbols.
//!
//! Each channel byte is shifted out most-significant bit first, channels in
//! wire order (green, red, blue), giving exactly 24 boolean symbols per
//! color. Decoding reassembles a byte from 8 symbols and a color from 24.

use crate::color::Color;
use vstd::prelude::*;

verus! {

/// Symbol `k` of a byte, most-significant bit first: bit `7 - k`.
pub open spec fn symbol_of_byte(byte: u8, k: int) -> bool
    recommends
        0 <= k < 8,
{
    (byte >> (7 - k) as u8) & 1 == 1
}

/// The 8 symbols of one byte, most-significant bit first.
pub open spec fn byte_symbols(byte: u8) -> Seq<bool> {
    Seq::new(8, |k: int| symbol_of_byte(byte, k))
}

/// The 24 symbols of a color: its channel bytes in wire order, each
/// most-significant bit first.
pub open spec fn color_symbols(c: Color) -> Seq<bool> {
    byte_symbols(c.g) + byte_symbols(c.r) + byte_symbols(c.b)
}

/// The numeric value a symbol contributes: 1 when set, 0 when clear.
pub open spec fn symbol_value(s: bool) -> int {
    if s {
        1
    } else {
        0
    }
}

/// The byte that 8 symbols denote, most-significant bit first.
pub open spec fn byte_of_symbols(s: Seq<bool>) -> u8
    recommends
        s.len() == 8,
{
    (symbol_value(s[0]) * 128 + symbol_value(s[1]) * 64 + symbol_value(s[2]) * 32
        + symbol_value(s[3]) * 16 + symbol_value(s[4]) * 8 + symbol_value(s[5]) * 4
        + symbol_value(s[6]) * 2 + symbol_value(s[7])) as u8
}

/// The color that 24 symbols denote: three bytes in wire order.
pub open spec fn color_of_symbols(s: Seq<bool>) -> Color
    recommends
        s.len() == 24,
{
    Color {
        g: byte_of_symbols(s.subrange(0, 8)),
        r: byte_of_symbols(s.subrange(8, 16)),
        b: byte_of_symbols(s.subrange(16, 24)),
    }
}

/// Appends the 8 symbols of `byte` to `out`, most-significant bit first.
fn push_byte_symbols(out: &mut Vec<bool>, byte: u8)
    ensures
        final(out)@ == old(out)@ + byte_symbols(byte),
{
    let mut k: usize = 0;
    while k < 8
        invariant
            k <= 8,
            out@ == old(out)@ + byte_symbols(byte).subrange(0, k as int),
        decreases 8 - k,
    {
        let shift: u8 = (7 - k) as u8;
        let symbol: bool = (byte >> shift) & 1 == 1;
        assert(symbol == byte_symbols(byte)[k as int]);
        out.push(symbol);
        assert(out@ =~= old(out)@ + byte_symbols(byte).subrange(0, k as int + 1));
        k = k + 1;
    }
    assert(out@ =~= old(out)@ + byte_symbols(byte));
}

/// Encodes a color into its 24 bit-symbols, ready for transmission.
///
/// Pure function of the color: no error case, always exactly 24 symbols.
pub fn encode(c: &Color) -> (symbols: Vec<bool>)
    ensures
        symbols@ == color_symbols(*c),
        symbols@.len() == 24,
{
    let mut out: Vec<bool> = Vec::new();
    push_byte_symbols(&mut out, c.g);
    push_byte_symbols(&mut out, c.r);
    push_byte_symbols(&mut out, c.b);
    assert(out@ =~= color_symbols(*c));
    out
}

/// Reads 8 symbols starting at `start` and rebuilds the byte they denote.
pub fn assemble_byte(symbols: &Vec<bool>, start: usize) -> (byte: u8)
    requires
        start + 8 <= symbols@.len(),
    ensures
        byte == byte_of_symbols(symbols@.subrange(start as int, start as int + 8)),
{
    let n: usize = symbols.len();
    assert(start + 8 <= n);
    let b0: u8 = if symbols[start] { 128 } else { 0 };
    let b1: u8 = if symbols[start + 1] { 64 } else { 0 };
    let b2: u8 = if symbols[start + 2] { 32 } else { 0 };
    let b3: u8 = if symbols[start + 3] { 16 } else { 0 };
    let b4: u8 = if symbols[start + 4] { 8 } else { 0 };
    let b5: u8 = if symbols[start + 5] { 4 } else { 0 };
    let b6: u8 = if symbols[start + 6] { 2 } else { 0 };
    let b7: u8 = if symbols[start + 7] { 1 } else { 0 };
    b0 + b1 + b2 + b3 + b4 + b5 + b6 + b7
}

/// Rebuilds the color that 24 symbols denote.
pub fn decode_symbols(symbols: &Vec<bool>) -> (c: Color)
    requires
        symbols@.len() == 24,
    ensures
        c == color_of_symbols(symbols@),
{
    let g = assemble_byte(symbols, 0);
    let r = assemble_byte(symbols, 8);
    let b = assemble_byte(symbols, 16);
    Color { g, r, b }
}

/// Rebuilding a byte from its own symbols gives the byte back.
pub proof fn lemma_byte_symbols_invert(byte: u8)
    ensures
        byte_of_symbols(byte_symbols(byte)) == byte,
{
    assert(((byte >> 7u8) & 1) == 0 || ((byte >> 7u8) & 1) == 1) by (bit_vector);
    assert(((byte >> 6u8) & 1) == 0 || ((byte >> 6u8) & 1) == 1) by (bit_vector);
    assert(((byte >> 5u8) & 1) == 0 || ((byte >> 5u8) & 1) == 1) by (bit_vector);
    assert(((byte >> 4u8) & 1) == 0 || ((byte >> 4u8) & 1) == 1) by (bit_vector);
    assert(((byte >> 3u8) & 1) == 0 || ((byte >> 3u8) & 1) == 1) by (bit_vector);
    assert(((byte >> 2u8) & 1) == 0 || ((byte >> 2u8) & 1) == 1) by (bit_vector);
    assert(((byte >> 1u8) & 1) == 0 || ((byte >> 1u8) & 1) == 1) by (bit_vector);
    assert(((byte >> 0u8) & 1) == 0 || ((byte >> 0u8) & 1) == 1) by (bit_vector);
    assert(((byte >> 7u8) & 1) * 128 + ((byte >> 6u8) & 1) * 64 + ((byte >> 5u8) & 1) * 32
        + ((byte >> 4u8) & 1) * 16 + ((byte >> 3u8) & 1) * 8 + ((byte >> 2u8) & 1) * 4
        + ((byte >> 1u8) & 1) * 2 + ((byte >> 0u8) & 1) == byte) by (bit_vector);
}

/// Round trip at the symbol level: decoding a color's own 24 symbols gives
/// the color back, for every color.
pub proof fn lemma_color_symbols_invert(c: Color)
    ensures
        color_symbols(c).len() == 24,
        color_of_symbols(color_symbols(c)) == c,
{
    assert(color_symbols(c).subrange(0, 8) =~= byte_symbols(c.g));
    assert(color_symbols(c).subrange(8, 16) =~= byte_symbols(c.r));
    assert(color_symbols(c).subrange(16, 24) =~= byte_symbols(c.b));
    lemma_byte_symbols_invert(c.g);
    lemma_byte_symbols_invert(c.r);
    lemma_byte_symbols_invert(c.b);
}

} // verus!
