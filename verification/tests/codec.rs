use grbled::color::Color;
use grbled::delay::cycles_for_ns;
use grbled::encoder::encode;
use grbled::pulse::{decode, transmit, PulsePair, PulseTrain};

#[test]
fn encode_produces_24_symbols() {
    let colors = [
        Color::new(0x00, 0x00, 0x00),
        Color::new(0xFF, 0xFF, 0xFF),
        Color::new(0x12, 0x34, 0x56),
    ];
    for c in colors.iter() {
        assert_eq!(encode(c).len(), 24);
    }
}

#[test]
fn encode_is_msb_first_in_wire_order() {
    // 0x81 = 0b1000_0001 in the green channel: first and eighth symbols set.
    let symbols = encode(&Color::new(0x81, 0x00, 0xFF));
    let expected = [
        true, false, false, false, false, false, false, true, // green 0x81
        false, false, false, false, false, false, false, false, // red 0x00
        true, true, true, true, true, true, true, true, // blue 0xFF
    ];
    assert_eq!(symbols.len(), expected.len());
    for k in 0..24 {
        assert_eq!(symbols[k], expected[k], "symbol {}", k);
    }
}

#[test]
fn round_trip_all_zero() {
    let c = Color::new(0x00, 0x00, 0x00);
    let t = transmit(&c, 100_000);
    assert_eq!(decode(&t), Some(c));
}

#[test]
fn round_trip_all_ones() {
    let c = Color::new(0xFF, 0xFF, 0xFF);
    let t = transmit(&c, 100_000);
    assert_eq!(decode(&t), Some(c));
}

#[test]
fn round_trip_first_channel_ones() {
    let c = Color::new(0xFF, 0x00, 0x00);
    let t = transmit(&c, 100_000);
    assert_eq!(decode(&t), Some(c));
}

#[test]
fn round_trip_mixed_value() {
    let c = Color::new(0x12, 0x34, 0x56);
    let t = transmit(&c, 100_000);
    assert_eq!(decode(&t), Some(c));
}

#[test]
fn transmit_uses_nominal_widths() {
    let t = transmit(&Color::new(0xFF, 0x00, 0x00), 100_000);
    // Green 0xFF: eight long-high pairs; red 0x00: eight short-high pairs.
    for k in 0..8 {
        assert_eq!(t.pairs[k], PulsePair { high_ns: 700, low_ns: 600 });
        assert_eq!(t.pairs[8 + k], PulsePair { high_ns: 350, low_ns: 800 });
    }
}

#[test]
fn decode_wrong_pair_count_is_none() {
    let c = Color::new(0xAB, 0xCD, 0xEF);
    let mut t = transmit(&c, 100_000);
    t.pairs.pop();
    assert_eq!(t.pairs.len(), 23);
    assert_eq!(decode(&t), None);
    let empty = PulseTrain { pairs: Vec::new(), rest_ns: 100_000 };
    assert_eq!(decode(&empty), None);
}

#[test]
fn decode_classifies_against_threshold() {
    // Off-nominal but classifiable widths: 600 ns reads long, 400 ns short.
    let mut pairs = Vec::new();
    for k in 0..24 {
        let high_ns = if k < 8 { 600 } else { 400 };
        pairs.push(PulsePair { high_ns, low_ns: 700 });
    }
    let t = PulseTrain { pairs, rest_ns: 100_000 };
    assert_eq!(decode(&t), Some(Color::new(0xFF, 0x00, 0x00)));
}

#[test]
fn cycle_counts_for_nominal_widths() {
    // 20 MHz clock: one cycle per 50 ns, rounded down.
    assert_eq!(cycles_for_ns(700), 14);
    assert_eq!(cycles_for_ns(600), 12);
    assert_eq!(cycles_for_ns(350), 7);
    assert_eq!(cycles_for_ns(800), 16);
    assert_eq!(cycles_for_ns(50_000), 1_000);
    assert_eq!(cycles_for_ns(0), 0);
    assert_eq!(cycles_for_ns(75), 1);
    assert_eq!(cycles_for_ns(u32::MAX), 85_899_345);
}
