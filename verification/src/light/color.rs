use vstd::prelude::*;

verus! {

/// An intensity value in `[0, 1]`, held as a fixed point number where
/// `PIN_MAX` stands for `1`.
pub type PinValue = u8;

/// The value of a fully opened pin (intensity `1`).
pub const PIN_MAX: u8 = 255;

/// An RGB color.  Every channel is an intensity in `[0, 1]`, held as
/// a fixed point number where `PIN_MAX` stands for full intensity.
#[derive(Clone, Copy, Debug, PartialEq, Eq, Structural)]
pub struct Color {
    pub red: u8,
    pub green: u8,
    pub blue: u8,
}

/// Linear interpolation of one channel: `factor == 0` gives `a`,
/// `factor == PIN_MAX` gives `b`, rounded down in between.
pub open spec fn mix_channel(a: u8, b: u8, factor: u8) -> u8 {
    ((a * (PIN_MAX - factor) + b * factor) / (PIN_MAX as int)) as u8
}

/// Linear interpolation of two colors, channel by channel.
pub open spec fn mix_spec(a: Color, b: Color, factor: u8) -> Color {
    Color {
        red: mix_channel(a.red, b.red, factor),
        green: mix_channel(a.green, b.green, factor),
        blue: mix_channel(a.blue, b.blue, factor),
    }
}

proof fn lemma_mix_channel_bounds(a: u8, b: u8, factor: u8)
    ensures
        0 <= (a * (PIN_MAX - factor) + b * factor) / (PIN_MAX as int) <= 255,
{
    assert(a * (PIN_MAX - factor) <= 255 * (PIN_MAX - factor)) by (nonlinear_arith)
        requires a <= 255, factor <= 255;
    assert(b * factor <= 255 * factor) by (nonlinear_arith)
        requires b <= 255, factor >= 0;
    assert(0 <= a * (PIN_MAX - factor)) by (nonlinear_arith)
        requires a >= 0, factor <= 255;
    assert(0 <= b * factor) by (nonlinear_arith)
        requires b >= 0, factor >= 0;
}

fn mix_channel_exec(a: u8, b: u8, factor: u8) -> (r: u8)
    ensures
        r == mix_channel(a, b, factor),
{
    proof {
        lemma_mix_channel_bounds(a, b, factor);
    }
    let x: u32 = (a as u32) * ((PIN_MAX - factor) as u32) + (b as u32) * (factor as u32);
    (x / 255) as u8
}

/// A mixed channel lies between the two channels that were mixed, and
/// mixing a channel with itself keeps it.
pub proof fn lemma_mix_channel_between(a: u8, b: u8, factor: u8)
    ensures
        a <= b ==> a <= mix_channel(a, b, factor) <= b,
        b <= a ==> b <= mix_channel(a, b, factor) <= a,
        mix_channel(a, a, factor) == a,
{
    let x = a * (PIN_MAX - factor) + b * factor;
    lemma_mix_channel_bounds(a, b, factor);
    assert(a <= b ==> a * 255 <= x <= b * 255) by (nonlinear_arith)
        requires
            x == a * (255 - factor) + b * factor,
            0 <= factor <= 255,
    ;
    assert(b <= a ==> b * 255 <= x <= a * 255) by (nonlinear_arith)
        requires
            x == a * (255 - factor) + b * factor,
            0 <= factor <= 255,
    ;
    assert(a * (255 - factor) + a * factor == a * 255) by (nonlinear_arith);
}

impl Color {
    pub fn new(red: u8, green: u8, blue: u8) -> (c: Color)
        ensures
            c.red == red,
            c.green == green,
            c.blue == blue,
    {
        Color { red, green, blue }
    }

    /// Mixes this color with `other`: `factor == 0` keeps this color,
    /// `factor == PIN_MAX` gives `other`.
    pub fn mix(&self, other: &Color, factor: PinValue) -> (c: Color)
        ensures
            c == mix_spec(*self, *other, factor),
    {
        Color {
            red: mix_channel_exec(self.red, other.red, factor),
            green: mix_channel_exec(self.green, other.green, factor),
            blue: mix_channel_exec(self.blue, other.blue, factor),
        }
    }

    pub fn black() -> (c: Color)
        ensures
            c == (Color { red: 0, green: 0, blue: 0 }),
    {
        Color { red: 0, green: 0, blue: 0 }
    }
    pub fn white() -> (c: Color)
        ensures
            c == (Color { red: 255, green: 255, blue: 255 }),
    {
        Color { red: 255, green: 255, blue: 255 }
    }

    pub fn red() -> (c: Color)
        ensures
            c == (Color { red: 255, green: 0, blue: 0 }),
    {
        Color { red: 255, green: 0, blue: 0 }
    }

    pub fn green() -> (c: Color)
        ensures
            c == (Color { red: 0, green: 255, blue: 0 }),
    {
        Color { red: 0, green: 255, blue: 0 }
    }

    pub fn blue() -> (c: Color)
        ensures
            c == (Color { red: 0, green: 0, blue: 255 }),
    {
        Color { red: 0, green: 0, blue: 255 }
    }

    pub fn yellow() -> (c: Color)
        ensures
            c == (Color { red: 255, green: 255, blue: 0 }),
    {
        Color { red: 255, green: 255, blue: 0 }
    }
}

} // verus!
