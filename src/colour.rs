use vstd::prelude::*;

verus! {

/// An opaque RGB colour with eight bits per channel.
#[derive(Clone, Copy, Debug, PartialEq, Eq, Structural)]
pub struct Colour {
    pub r: u8,
    pub g: u8,
    pub b: u8,
}

/// The colour a cuboid reports for a point that lies on none of its faces: a
/// shading artifact that stands out, never a colour a face would plausibly carry.
pub open spec fn unclassified_colour() -> Colour {
    Colour { r: 255, g: 0, b: 220 }
}

/// A colour whose three channels are all full.
pub open spec fn is_white(c: Colour) -> bool {
    c.r == 255 && c.g == 255 && c.b == 255
}

/// One channel filtered by another, both read as fractions of 255.
pub open spec fn channel_product(a: u8, b: u8) -> int {
    (a as int * b as int) / 255
}

/// The mean of two channels, rounded down.
pub open spec fn channel_mean(a: u8, b: u8) -> int {
    (a as int + b as int) / 2
}

impl Colour {
    pub fn rgb(r: u8, g: u8, b: u8) -> (c: Colour)
        ensures
            c.r == r,
            c.g == g,
            c.b == b,
    {
        Colour { r, g, b }
    }

    pub fn white() -> (c: Colour)
        ensures
            is_white(c),
    {
        Colour::rgb(255, 255, 255)
    }

    pub fn black() -> (c: Colour)
        ensures
            c.r == 0 && c.g == 0 && c.b == 0,
    {
        Colour::rgb(0, 0, 0)
    }

    pub fn red() -> (c: Colour)
        ensures
            c.r == 255 && c.g == 0 && c.b == 0,
    {
        Colour::rgb(255, 0, 0)
    }

    pub fn green() -> (c: Colour)
        ensures
            c.r == 0 && c.g == 255 && c.b == 0,
    {
        Colour::rgb(0, 255, 0)
    }

    pub fn blue() -> (c: Colour)
        ensures
            c.r == 0 && c.g == 0 && c.b == 255,
    {
        Colour::rgb(0, 0, 255)
    }

    pub fn yellow() -> (c: Colour)
        ensures
            c.r == 255 && c.g == 255 && c.b == 0,
    {
        Colour::rgb(255, 255, 0)
    }

    /// Drawn where a ray hits nothing.
    pub fn background() -> (c: Colour)
        ensures
            c.r == 100 && c.g == 149 && c.b == 237,
    {
        Colour::rgb(100, 149, 237)
    }

    pub fn unclassified() -> (c: Colour)
        ensures
            c == unclassified_colour(),
    {
        Colour::rgb(255, 0, 220)
    }
}

fn filter_channel(a: u8, b: u8) -> (c: u8)
    ensures
        c == channel_product(a, b),
{
    proof {
        assert(a as int * b as int <= 255 * 255) by (nonlinear_arith)
            requires
                a <= 255,
                b <= 255,
        ;
    }
    let p: u32 = a as u32 * b as u32;
    (p / 255) as u8
}

/// Filters `lhs` through `rhs` channel by channel (a surface colour lit by a
/// light colour); white leaves a colour as it is.
pub fn multiply_colours(lhs: Colour, rhs: Colour) -> (c: Colour)
    ensures
        c.r == channel_product(lhs.r, rhs.r),
        c.g == channel_product(lhs.g, rhs.g),
        c.b == channel_product(lhs.b, rhs.b),
        is_white(rhs) ==> c == lhs,
{
    Colour::rgb(filter_channel(lhs.r, rhs.r), filter_channel(lhs.g, rhs.g), filter_channel(lhs.b, rhs.b))
}

fn mean_channel(a: u8, b: u8) -> (c: u8)
    ensures
        c == channel_mean(a, b),
{
    ((a as u16 + b as u16) / 2) as u8
}

/// The channel-wise mean of two colours, rounded down: how the ambient and
/// diffuse terms of the shading are combined.
pub fn add_colour(lhs: Colour, rhs: Colour) -> (c: Colour)
    ensures
        c.r == channel_mean(lhs.r, rhs.r),
        c.g == channel_mean(lhs.g, rhs.g),
        c.b == channel_mean(lhs.b, rhs.b),
        lhs == rhs ==> c == lhs,
{
    Colour::rgb(mean_channel(lhs.r, rhs.r), mean_channel(lhs.g, rhs.g), mean_channel(lhs.b, rhs.b))
}

} // verus!
