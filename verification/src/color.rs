//! Colours with channels in `[0, 1]`, and their quantised form.

use vstd::prelude::*;
use crate::error::Error;
use crate::scalar::Scalar;
use crate::vector3::Vector3;

verus! {

/// The ASCII code of the digit `0`; the other digits follow it.
pub const DIGIT_ZERO: u8 = 48;

/// The ASCII code of a space.
pub const SPACE: u8 = 32;

/// The ASCII code of a line feed.
pub const LINE_FEED: u8 = 10;

/// The decimal digits of `n` in ASCII, most significant first, without
/// leading zeros.
pub open spec fn decimal(n: nat) -> Seq<u8>
    decreases n,
{
    if n < 10 {
        seq![(DIGIT_ZERO + n) as u8]
    } else {
        decimal(n / 10).push((DIGIT_ZERO + n % 10) as u8)
    }
}

/// The number that a string of decimal digits denotes.
pub open spec fn number(digits: Seq<u8>) -> nat
    decreases digits.len(),
{
    if digits.len() == 0 {
        0
    } else {
        (number(digits.drop_last()) * 10 + (digits.last() - DIGIT_ZERO)) as nat
    }
}

/// The digits of a number are digits, as few as can be, and denote the
/// number.
pub proof fn lemma_decimal_denotes(n: nat)
    ensures
        number(decimal(n)) == n,
        decimal(n).len() >= 1,
        forall|i: int|
            0 <= i < decimal(n).len() ==> DIGIT_ZERO <= #[trigger] decimal(n)[i] <= DIGIT_ZERO + 9,
        n > 0 ==> decimal(n)[0] != DIGIT_ZERO,
    decreases n,
{
    let digits = decimal(n);
    if n < 10 {
        assert(digits.drop_last() =~= Seq::<u8>::empty());
        assert(number(digits.drop_last()) == 0);
        assert(digits.last() == DIGIT_ZERO + n);
    } else {
        lemma_decimal_denotes(n / 10);
        assert(digits.drop_last() =~= decimal(n / 10));
        assert(digits.last() == DIGIT_ZERO + n % 10);
    }
}

/// Appends the decimal digits of `n` to `out`.
pub fn write_decimal(out: &mut Vec<u8>, n: u32)
    ensures
        final(out)@ == old(out)@ + decimal(n as nat),
    decreases n,
{
    if n >= 10 {
        write_decimal(out, n / 10);
    }
    let digit: u8 = (n % 10) as u8;
    out.push(DIGIT_ZERO + digit);
}

/// A colour quantised for output: each channel is a level from 0 to 255.
#[derive(Clone, Copy, Debug, PartialEq, Eq)]
pub struct Pixel {
    pub r: u8,
    pub g: u8,
    pub b: u8,
}

impl Pixel {
    /// The line of a pixel in a plain-text image: the three levels in
    /// decimal, separated by one space and ended by a line feed.
    pub open spec fn line(self) -> Seq<u8> {
        decimal(self.r as nat) + seq![SPACE] + decimal(self.g as nat) + seq![SPACE] + decimal(
            self.b as nat,
        ) + seq![LINE_FEED]
    }

    /// The pixel with the given levels.
    pub fn new(r: u8, g: u8, b: u8) -> (p: Pixel)
        ensures
            p.r == r,
            p.g == g,
            p.b == b,
    {
        Pixel { r, g, b }
    }

    /// Appends the pixel's line to `out`.
    pub fn dump(&self, out: &mut Vec<u8>)
        ensures
            final(out)@ == old(out)@ + self.line(),
    {
        write_decimal(out, self.r as u32);
        out.push(SPACE);
        write_decimal(out, self.g as u32);
        out.push(SPACE);
        write_decimal(out, self.b as u32);
        out.push(LINE_FEED);
    }
}

/// A red, green and blue triple. No channel is below `0.0` or above `1.0`.
#[derive(Clone, Copy, Debug)]
pub struct Color {
    vec: Vector3,
}

impl View for Color {
    type V = Vector3;

    closed spec fn view(&self) -> Vector3 {
        self.vec
    }
}

impl Color {
    /// Whether a channel value is accepted: it is neither below `0.0` nor
    /// above `1.0`. A NaN compares false both times and passes.
    pub open spec fn valid_channel(x: Scalar) -> bool {
        !x.spec_lt(Scalar::spec_zero()) && !x.spec_gt(Scalar::spec_one())
    }

    #[verifier::type_invariant]
    closed spec fn channels_valid(self) -> bool {
        &&& Color::valid_channel(self.vec.x)
        &&& Color::valid_channel(self.vec.y)
        &&& Color::valid_channel(self.vec.z)
    }

    /// The first channel, in the order red, green, blue, that is out of range.
    pub open spec fn first_invalid(r: Scalar, g: Scalar, b: Scalar) -> Option<Scalar> {
        if !Color::valid_channel(r) {
            Some(r)
        } else if !Color::valid_channel(g) {
            Some(g)
        } else if !Color::valid_channel(b) {
            Some(b)
        } else {
            None
        }
    }

    /// What building a colour from three channels gives: the colour with
    /// these channels where all are in range, the first offending channel
    /// where one is not.
    pub open spec fn built_from(r: Scalar, g: Scalar, b: Scalar, c: Result<Color, Error>) -> bool {
        match Color::first_invalid(r, g, b) {
            Some(x) => c == Err::<Color, Error>(Error::InvalidColor(x)),
            None => c matches Ok(color) && color@ == (Vector3 { x: r, y: g, z: b }),
        }
    }

    fn check_color_value(x: Scalar) -> (ok: bool)
        ensures
            ok == Color::valid_channel(x),
    {
        !(x.lt(Scalar::zero()) || x.gt(Scalar::one()))
    }

    /// The colour with the given channels. A channel below `0.0` or above
    /// `1.0` is refused.
    pub fn new(r: Scalar, g: Scalar, b: Scalar) -> (c: Result<Color, Error>)
        ensures
            Color::built_from(r, g, b, c),
    {
        if !Color::check_color_value(r) {
            Err(Error::InvalidColor(r))
        } else if !Color::check_color_value(g) {
            Err(Error::InvalidColor(g))
        } else if !Color::check_color_value(b) {
            Err(Error::InvalidColor(b))
        } else {
            Ok(Color { vec: Vector3 { x: r, y: g, z: b } })
        }
    }

    /// The colour `(1, 1, 1)`.
    pub fn white() -> (c: Color)
        ensures
            c@.x == Scalar::spec_one(),
            c@.y == Scalar::spec_one(),
            c@.z == Scalar::spec_one(),
    {
        Color { vec: Vector3 { x: Scalar::one(), y: Scalar::one(), z: Scalar::one() } }
    }

    /// The red channel.
    pub fn r(&self) -> (x: Scalar)
        ensures
            x == self@.x,
            Color::valid_channel(x),
    {
        proof {
            use_type_invariant(self);
        }
        self.vec.x
    }

    /// The green channel.
    pub fn g(&self) -> (x: Scalar)
        ensures
            x == self@.y,
            Color::valid_channel(x),
    {
        proof {
            use_type_invariant(self);
        }
        self.vec.y
    }

    /// The blue channel.
    pub fn b(&self) -> (x: Scalar)
        ensures
            x == self@.z,
            Color::valid_channel(x),
    {
        proof {
            use_type_invariant(self);
        }
        self.vec.z
    }

    /// The colour whose channels are the components of `v`, where they are
    /// in range.
    pub fn from_vec(v: Vector3) -> (c: Result<Color, Error>)
        ensures
            Color::built_from(v.x, v.y, v.z, c),
    {
        Color::new(v.x, v.y, v.z)
    }

    /// The channels as a vector.
    pub fn as_vec(&self) -> (v: &Vector3)
        ensures
            *v == self@,
    {
        &self.vec
    }
}

} // verus!
