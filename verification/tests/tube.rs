//! The seven-segment tables, the four-digit number image, and the GPIO
//! register images.

use bw_player::tube::{
    digit_to_segments, dot_segment, Number, SegDisplay, Segment, Segments, TubeDisplay,
    SEGMENTS_MASK,
};

#[test]
fn segment_lines_match_the_wiring() {
    assert_eq!(Segment::A, 1 << 7);
    assert_eq!(Segment::B, 1 << 6);
    assert_eq!(Segment::F, 1 << 5);
    assert_eq!(Segment::E, 1 << 8);
    assert_eq!(Segment::D, 1 << 9);
    assert_eq!(Segment::DP, 1 << 10);
    assert_eq!(Segment::C, 1 << 11);
    assert_eq!(Segment::G, 1 << 12);
}

#[test]
fn digit_segment_tables() {
    assert_eq!(digit_to_segments(0), 0x0BE0);
    assert_eq!(digit_to_segments(1), 0x0840);
    assert_eq!(digit_to_segments(2), 0x13C0);
    assert_eq!(digit_to_segments(3), 0x1AC0);
    assert_eq!(digit_to_segments(4), 0x1860);
    assert_eq!(digit_to_segments(5), 0x1AA0);
    assert_eq!(digit_to_segments(6), 0x1BA0);
    assert_eq!(digit_to_segments(7), 0x08C0);
    assert_eq!(digit_to_segments(8), 0x1BE0);
    assert_eq!(digit_to_segments(9), 0x1AE0);
}

#[test]
fn bits_and_combine_merge_segment_states() {
    assert_eq!(0x0840u32.bits(), 0x0840);
    assert_eq!(digit_to_segments(1).combine(Segment::DP), 0x0840 | 0x0400);
    assert_eq!(0u32.combine(0), 0);
}

#[test]
fn dot_segment_follows_the_mask() {
    assert_eq!(dot_segment(0b0000, 0), 0);
    assert_eq!(dot_segment(0b0001, 0), Segment::DP);
    assert_eq!(dot_segment(0b0100, 2), Segment::DP);
    assert_eq!(dot_segment(0b0100, 1), 0);
}

#[test]
fn number_new_and_set_dot() {
    let n = Number::new(42);
    assert_eq!(n.n, 42);
    assert_eq!(n.dots, 0);
    let n = n.set_dot(2);
    assert_eq!(n.dots, 0b0100);
    let n = n.set_dot(0);
    assert_eq!(n.dots, 0b0101);
}

#[test]
fn number_spreads_digits_thousands_first() {
    let bits = Number::new(1234).tube_bits();
    assert_eq!(
        bits,
        [
            digit_to_segments(1),
            digit_to_segments(2),
            digit_to_segments(3),
            digit_to_segments(4),
        ]
    );
}

#[test]
fn number_pads_with_leading_zeros() {
    let bits = Number::new(7).tube_bits();
    assert_eq!(
        bits,
        [
            digit_to_segments(0),
            digit_to_segments(0),
            digit_to_segments(0),
            digit_to_segments(7),
        ]
    );
}

#[test]
fn number_dots_light_their_positions() {
    let bits = Number::new(42).set_dot(1).tube_bits();
    assert_eq!(bits[0], digit_to_segments(0));
    assert_eq!(bits[1], digit_to_segments(0) | Segment::DP);
    assert_eq!(bits[2], digit_to_segments(4));
    assert_eq!(bits[3], digit_to_segments(2));
}

#[test]
fn raw_states_fill_the_tubes_verbatim() {
    let states = [1u32, 2, 3, 4];
    assert_eq!(states.tube_bits(), [1, 2, 3, 4]);
}

#[test]
fn segments_default_drives_every_owned_line() {
    assert_eq!(Segments::default().state, SEGMENTS_MASK);
    assert_eq!(SEGMENTS_MASK, 0x1FE0);
}

#[test]
fn odr_releases_then_pulls_driven_lines() {
    let seg = Segments { state: Segment::B };
    // every owned line goes high, then B's line is pulled low
    assert_eq!(seg.odr_bits(0), 0x1FE0 & !0x40);
    // pins outside the mask keep their bits
    assert_eq!(seg.odr_bits(0x8001), 0x8001 | (0x1FE0 & !0x40));
}

#[test]
fn crl_config_rewrites_only_owned_low_pins() {
    // low pins 5, 6, 7 are owned: their nibbles become 0b0001
    assert_eq!(Segments::crl_config(0x0000_0000), 0x1110_0000);
    assert_eq!(Segments::crl_config(0xFFFF_FFFF), 0x111F_FFFF);
    assert_eq!(Segments::crl_config(0x4444_4444), 0x1114_4444);
}

#[test]
fn crh_config_rewrites_only_owned_high_pins() {
    // high pins 8 through 12 are owned: their nibbles become 0b0001
    assert_eq!(Segments::crh_config(0x0000_0000), 0x0001_1111);
    assert_eq!(Segments::crh_config(0xFFFF_FFFF), 0xFFF1_1111);
    assert_eq!(Segments::crh_config(0x4444_4444), 0x4441_1111);
}
