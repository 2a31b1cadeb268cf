//! Pure arithmetic of the four-digit seven-segment display driver: which
//! segment lines a decimal digit lights, how a number is spread over the
//! four tubes, and the GPIO register images that configure and drive the
//! segment pins. The register writes themselves are the surrounding
//! application's concern; everything here is a function from values to
//! values.

use vstd::prelude::*;

verus! {

/// The GPIO output lines that the segment driver owns: segments A through G
/// and the decimal point, as wired on this board.
pub const SEGMENTS_MASK: u32 = 0b0001_1111_1110_0000;

/// The GPIO output lines of the seven segments and the decimal point,
/// as driven by this board's wiring.
pub struct Segment;

impl Segment {
    pub const A: u32 = 0x80;

    pub const B: u32 = 0x40;

    pub const F: u32 = 0x20;

    pub const E: u32 = 0x100;

    pub const D: u32 = 0x200;

    pub const DP: u32 = 0x400;

    pub const C: u32 = 0x800;

    pub const G: u32 = 0x1000;
}

/// Everything that can be shown on one seven-segment tube: a value with a
/// segment-line image.
pub trait SegDisplay: Sized {
    /// The segment lines the value lights.
    spec fn spec_bits(&self) -> u32;

    /// The raw segment state to drive.
    fn bits(self) -> (r: u32)
        ensures
            r == self.spec_bits(),
    ;

    /// Merge with another raw segment state: a segment is lit when either
    /// lights it.
    fn combine(self, other: u32) -> (r: u32)
        ensures
            r == self.spec_bits() | other,
    ;
}

impl SegDisplay for u32 {
    open spec fn spec_bits(&self) -> u32 {
        *self
    }

    fn bits(self) -> (r: u32) {
        self
    }

    fn combine(self, other: u32) -> (r: u32) {
        self | other
    }
}

/// The seven-segment image of one decimal digit.
pub open spec fn spec_digit_segments(digit: u8) -> u32 {
    if digit == 0 {
        Segment::A | Segment::B | Segment::C | Segment::D | Segment::E | Segment::F
    } else if digit == 1 {
        Segment::B | Segment::C
    } else if digit == 2 {
        Segment::A | Segment::B | Segment::G | Segment::E | Segment::D
    } else if digit == 3 {
        Segment::A | Segment::B | Segment::G | Segment::C | Segment::D
    } else if digit == 4 {
        Segment::F | Segment::G | Segment::B | Segment::C
    } else if digit == 5 {
        Segment::A | Segment::F | Segment::G | Segment::C | Segment::D
    } else if digit == 6 {
        Segment::A | Segment::F | Segment::G | Segment::C | Segment::D | Segment::E
    } else if digit == 7 {
        Segment::A | Segment::B | Segment::C
    } else if digit == 8 {
        Segment::A | Segment::B | Segment::C | Segment::D | Segment::E | Segment::F | Segment::G
    } else if digit == 9 {
        Segment::A | Segment::B | Segment::C | Segment::D | Segment::F | Segment::G
    } else {
        0
    }
}

/// The segment lines one decimal digit lights.
pub fn digit_to_segments(digit: u8) -> (r: u32)
    requires
        digit <= 9,
    ensures
        r == spec_digit_segments(digit),
{
    match digit {
        0 => Segment::A | Segment::B | Segment::C | Segment::D | Segment::E | Segment::F,
        1 => Segment::B | Segment::C,
        2 => Segment::A | Segment::B | Segment::G | Segment::E | Segment::D,
        3 => Segment::A | Segment::B | Segment::G | Segment::C | Segment::D,
        4 => Segment::F | Segment::G | Segment::B | Segment::C,
        5 => Segment::A | Segment::F | Segment::G | Segment::C | Segment::D,
        6 => Segment::A | Segment::F | Segment::G | Segment::C | Segment::D | Segment::E,
        7 => Segment::A | Segment::B | Segment::C,
        8 => Segment::A | Segment::B | Segment::C | Segment::D | Segment::E | Segment::F
            | Segment::G,
        _ => Segment::A | Segment::B | Segment::C | Segment::D | Segment::F | Segment::G,
    }
}

/// The decimal-point segment for tube position `i`, when that position's
/// dot flag is set; dark otherwise.
pub open spec fn spec_dot_segment(dots: u8, i: u8) -> u32 {
    if (dots >> i) & 1 == 1 {
        Segment::DP
    } else {
        0
    }
}

/// The decimal-point segment for tube position `i` of a dot mask.
pub fn dot_segment(dots: u8, i: u8) -> (r: u32)
    requires
        i < 8,
    ensures
        r == spec_dot_segment(dots, i),
{
    if (dots >> i) & 1 == 1 {
        Segment::DP
    } else {
        0
    }
}

/// Everything that can fill the four tubes at once: a value with one
/// segment-line image per tube position, most significant first.
pub trait TubeDisplay: Sized {
    /// Whether the value fits on the display.
    spec fn tube_wf(&self) -> bool;

    /// The four segment states, one per tube.
    spec fn spec_tube_bits(&self) -> Seq<u32>;

    /// The raw segment states to drive, tube by tube.
    fn tube_bits(self) -> (r: [u32; 4])
        requires
            self.tube_wf(),
        ensures
            r@ == self.spec_tube_bits(),
    ;
}

impl TubeDisplay for [u32; 4] {
    open spec fn tube_wf(&self) -> bool {
        true
    }

    open spec fn spec_tube_bits(&self) -> Seq<u32> {
        self@
    }

    fn tube_bits(self) -> (r: [u32; 4]) {
        self
    }
}

/// A decimal number of up to four digits, with a decimal-point mask: bit
/// `i` of `dots` lights the dot on tube `i`, counted from the most
/// significant digit.
#[derive(Debug, Clone, Copy, PartialEq, Eq, Structural)]
pub struct Number {
    pub n: u16,
    pub dots: u8,
}

/// The four tube images of a number: its decimal digits, thousands first,
/// each merged with that position's decimal point.
pub open spec fn spec_number_tube_bits(n: u16, dots: u8) -> Seq<u32> {
    seq![
        spec_digit_segments((n / 1000 % 10) as u8) | spec_dot_segment(dots, 0),
        spec_digit_segments((n / 100 % 10) as u8) | spec_dot_segment(dots, 1),
        spec_digit_segments((n / 10 % 10) as u8) | spec_dot_segment(dots, 2),
        spec_digit_segments((n % 10) as u8) | spec_dot_segment(dots, 3),
    ]
}

impl TubeDisplay for Number {
    /// The display has four digits.
    open spec fn tube_wf(&self) -> bool {
        self.n < 10000
    }

    open spec fn spec_tube_bits(&self) -> Seq<u32> {
        spec_number_tube_bits(self.n, self.dots)
    }

    fn tube_bits(self) -> (r: [u32; 4]) {
        let d0 = digit_to_segments(((self.n / 1000) % 10) as u8).combine(
            dot_segment(self.dots, 0),
        );
        let d1 = digit_to_segments(((self.n / 100) % 10) as u8).combine(dot_segment(self.dots, 1));
        let d2 = digit_to_segments(((self.n / 10) % 10) as u8).combine(dot_segment(self.dots, 2));
        let d3 = digit_to_segments((self.n % 10) as u8).combine(dot_segment(self.dots, 3));
        let r = [d0, d1, d2, d3];
        proof {
            assert(r@ =~= spec_number_tube_bits(self.n, self.dots));
        }
        r
    }
}

impl Number {
    /// A number with no decimal points lit.
    pub fn new(num: u16) -> (r: Number)
        ensures
            r.n == num,
            r.dots == 0,
    {
        Number { n: num, dots: 0 }
    }

    /// The same number with the decimal point at tube position `idx` lit.
    pub fn set_dot(self, idx: usize) -> (r: Number)
        requires
            idx < 8,
        ensures
            r.n == self.n,
            r.dots == self.dots | (1u8 << (idx as u8)),
    {
        Number { n: self.n, dots: self.dots | (1u8 << (idx as u8)) }
    }
}

/// The configuration nibble of pin `i` in a GPIO port configuration
/// register: four bits per pin.
pub open spec fn config_nibble(reg: u32, i: u32) -> u32
    recommends
        i < 8,
{
    (reg >> ((4 * i) as u32)) & 0xF
}

/// The output state of one tube's segment driver. A set bit drives that
/// segment line (the tube is wired active low, so a driven line is a lit
/// segment); the default state drives every owned line.
pub struct Segments {
    pub state: u32,
}

impl Default for Segments {
    fn default() -> (r: Self)
        ensures
            r.state == SEGMENTS_MASK,
    {
        Segments { state: SEGMENTS_MASK }
    }
}

impl Segments {
    /// The image of the low configuration register (pins 0 through 7) with
    /// every pin the segment mask owns reconfigured to general-purpose
    /// push-pull output, 10 MHz (configuration nibble 0b0001), and every
    /// other pin's configuration untouched.
    pub fn crl_config(crl: u32) -> (r: u32)
        ensures
            forall|i: u32|
                i < 8 ==> #[trigger] config_nibble(r, i) == if (SEGMENTS_MASK >> i) & 1 == 1 {
                    1u32
                } else {
                    config_nibble(crl, i)
                },
    {
        let r = (crl & 0x000f_ffff) | 0x1110_0000;
        proof {
            assert forall|i: u32| i < 8 implies #[trigger] config_nibble(r, i) == (
            if (SEGMENTS_MASK >> i) & 1 == 1 {
                1u32
            } else {
                config_nibble(crl, i)
            }) by {
                assert(i < 8 ==> ((((crl & 0x000f_ffffu32) | 0x1110_0000u32) >> ((4 * i) as u32))
                    & 0xF) == if (0b0001_1111_1110_0000u32 >> i) & 1 == 1 {
                    1u32
                } else {
                    (crl >> ((4 * i) as u32)) & 0xF
                }) by (bit_vector);
            }
        }
        r
    }

    /// The image of the high configuration register (pins 8 through 15),
    /// reconfigured the same way: pin `8 + i` has nibble `i` here.
    pub fn crh_config(crh: u32) -> (r: u32)
        ensures
            forall|i: u32|
                i < 8 ==> #[trigger] config_nibble(r, i) == if (SEGMENTS_MASK >> ((i + 8) as u32))
                    & 1 == 1 {
                    1u32
                } else {
                    config_nibble(crh, i)
                },
    {
        let r = (crh & 0xfff0_0000) | 0x0001_1111;
        proof {
            assert forall|i: u32| i < 8 implies #[trigger] config_nibble(r, i) == (
            if (SEGMENTS_MASK >> ((i + 8) as u32)) & 1 == 1 {
                1u32
            } else {
                config_nibble(crh, i)
            }) by {
                assert(i < 8 ==> ((((crh & 0xfff0_0000u32) | 0x0001_1111u32) >> ((4 * i) as u32))
                    & 0xF) == if (0b0001_1111_1110_0000u32 >> ((i + 8) as u32)) & 1 == 1 {
                    1u32
                } else {
                    (crh >> ((4 * i) as u32)) & 0xF
                }) by (bit_vector);
            }
        }
        r
    }

    /// The output register image that shows this state: every owned segment
    /// line is first released high (dark), then the lines of the driven
    /// segments are pulled low; pins outside the mask keep their bits.
    pub fn odr_bits(&self, odr: u32) -> (r: u32)
        ensures
            r == (odr | SEGMENTS_MASK) & !self.state,
    {
        (odr | SEGMENTS_MASK) & !self.state
    }
}

} // verus!
