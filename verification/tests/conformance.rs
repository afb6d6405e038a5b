use grbled::color::Color;
use grbled::pulse::{check_conformance, transmit, PulsePair, PulseTrain};

#[test]
fn transmitted_frame_is_conformant() {
    let t = transmit(&Color::new(0x10, 0x20, 0x30), 60_000);
    assert!(check_conformance(&t));
}

#[test]
fn short_reset_gap_is_flagged() {
    let good = transmit(&Color::new(0x10, 0x20, 0x30), 60_000);
    let short = PulseTrain { pairs: good.pairs.clone(), rest_ns: 49_999 };
    assert!(!check_conformance(&short));
    let zero = PulseTrain { pairs: good.pairs.clone(), rest_ns: 0 };
    assert!(!check_conformance(&zero));
}

#[test]
fn off_nominal_width_is_flagged() {
    let mut t = transmit(&Color::new(0x10, 0x20, 0x30), 60_000);
    t.pairs[5] = PulsePair { high_ns: 500, low_ns: 600 };
    assert!(!check_conformance(&t));
}

#[test]
fn wrong_pair_count_is_flagged() {
    let mut t = transmit(&Color::new(0x10, 0x20, 0x30), 60_000);
    t.pairs.pop();
    assert!(!check_conformance(&t));
}

#[test]
fn transmit_raises_short_hold_to_reset_gap() {
    let t = transmit(&Color::new(0x01, 0x02, 0x03), 10);
    assert_eq!(t.rest_ns, 50_000);
    let u = transmit(&Color::new(0x01, 0x02, 0x03), 200_000);
    assert_eq!(u.rest_ns, 200_000);
    let edge = transmit(&Color::new(0x01, 0x02, 0x03), 50_000);
    assert_eq!(edge.rest_ns, 50_000);
}

#[test]
fn repeat_transmission_is_bit_identical() {
    let c = Color::new(0x7E, 0x81, 0x3C);
    let first = transmit(&c, 60_000);
    let second = transmit(&c, 60_000);
    assert_eq!(first, second);
}
