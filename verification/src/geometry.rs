//! Points, sizes and pen samples, with measures carried as bit patterns.

use vstd::prelude::*;

use crate::ieee::Single;
use crate::text::push_char;

verus! {

/// A point of the canvas or of a widget.
#[derive(Clone, Copy, Debug, PartialEq, Eq, Structural)]
pub struct Point {
    pub x: Single,
    pub y: Single,
}

impl Point {
    /// The origin.
    pub open spec fn zero() -> Point {
        Point { x: Single { bits: 0 }, y: Single { bits: 0 } }
    }

    /// The origin.
    pub fn origin() -> (p: Point)
        ensures
            p == Point::zero(),
    {
        Point { x: Single { bits: 0 }, y: Single { bits: 0 } }
    }
}

/// A width and a height in pixels.
#[derive(Clone, Copy, Debug, PartialEq, Eq, Structural)]
pub struct Size {
    pub width: u32,
    pub height: u32,
}

/// One pen sample: where it was taken and how the pen was held.
#[derive(Clone, Copy, Debug, PartialEq, Eq, Structural)]
pub struct InputSample {
    pub position: Point,
    pub pressure: Single,
    pub tilt_x: Single,
    pub tilt_y: Single,
    pub rotation: Single,
    pub time_ms: u64,
}

/// An opaque color.
#[derive(Clone, Copy, Debug, PartialEq, Eq, Structural)]
pub struct Color {
    pub r: u8,
    pub g: u8,
    pub b: u8,
}

/// The hexadecimal digit of a number below sixteen.
pub open spec fn hex_digit(n: int) -> char {
    if n < 10 {
        (n + '0' as int) as char
    } else {
        (n - 10 + 'A' as int) as char
    }
}

/// The two hexadecimal digits of a byte.
pub open spec fn hex_byte(n: u8) -> Seq<char> {
    seq![hex_digit(n as int / 16), hex_digit(n as int % 16)]
}

/// The hexadecimal digit of a number below sixteen.
fn hex_char(n: u8) -> (c: char)
    requires
        n < 16,
    ensures
        c == hex_digit(n as int),
{
    if n < 10 {
        (n + '0' as u8) as char
    } else {
        (n - 10 + 'A' as u8) as char
    }
}

impl Color {
    /// The color as it is written: `#` and two digits for each of red, green and blue.
    pub fn to_hex(self) -> (s: String)
        ensures
            s@ == seq!['#'] + hex_byte(self.r) + hex_byte(self.g) + hex_byte(self.b),
    {
        let mut s = String::new();
        push_char(&mut s, '#');
        push_char(&mut s, hex_char(self.r / 16));
        push_char(&mut s, hex_char(self.r % 16));
        push_char(&mut s, hex_char(self.g / 16));
        push_char(&mut s, hex_char(self.g % 16));
        push_char(&mut s, hex_char(self.b / 16));
        push_char(&mut s, hex_char(self.b % 16));
        assert(s@ =~= seq!['#'] + hex_byte(self.r) + hex_byte(self.g) + hex_byte(self.b));
        s
    }
}

/// The number that a hexadecimal digit stands for.
pub open spec fn digit_value(c: char) -> int {
    if '0' as int <= c as int <= '9' as int {
        c as int - '0' as int
    } else {
        c as int - 'A' as int + 10
    }
}

/// A color can be read back from how it is written: a mark, then red, green and blue,
/// each by two digits, the greater first, and all digits capital.
pub proof fn law_a_color_reads_back(c: Color, s: String)
    requires
        call_ensures(Color::to_hex, (c,), s),
    ensures
        s@.len() == 7,
        s@[0] == '#',
        16 * digit_value(s@[1]) + digit_value(s@[2]) == c.r,
        16 * digit_value(s@[3]) + digit_value(s@[4]) == c.g,
        16 * digit_value(s@[5]) + digit_value(s@[6]) == c.b,
        forall|i: int|
            1 <= i < 7 ==> '0' as int <= #[trigger] s@[i] as int <= '9' as int || 'A' as int
                <= s@[i] as int <= 'F' as int,
{
}

} // verus!
