//! Translucent colours.

use vstd::prelude::*;
use vstd::std_specs::cmp::PartialEqSpecImpl;
use crate::alpha::{alpha_eq, spec_alpha_eq};
use crate::decimal::{decimal, push_decimal};
use crate::rgb::RGB;

verus! {

/// How much red, green and blue make up a colour, each from 0 to 255, and how
/// opaque it is.
///
/// The alpha channel `a` is a binary fraction, held as its IEEE 754 binary32
/// encoding. It is meant to lie between zero and one, but no range is
/// enforced: whatever is given is kept.
#[derive(Debug, Copy, Clone)]
pub struct RGBA {
    /// red
    pub r: u8,
    /// green
    pub g: u8,
    /// blue
    pub b: u8,
    /// alpha, as its binary32 encoding
    pub a: u32,
}

impl RGBA {
    /// The CSS text of the colour: `rgba(R, G, B, A)`, each colour channel as
    /// its decimal numeral, and `alpha` as the text of the alpha channel.
    pub open spec fn css(&self, alpha: Seq<char>) -> Seq<char> {
        "rgba("@ + decimal(self.r as nat) + ", "@ + decimal(self.g as nat) + ", "@ + decimal(
            self.b as nat,
        ) + ", "@ + alpha + ")"@
    }

    /// The colour without its alpha channel.
    pub open spec fn spec_to_rgb(&self) -> RGB {
        RGB { r: self.r, g: self.g, b: self.b }
    }

    /// Renders the colour as CSS around the given text of its alpha channel.
    ///
    /// The caller supplies `alpha`, the shortest decimal numeral that reads
    /// back as the fraction in `self.a`; it is placed in the text unchanged.
    pub fn to_css(&self, alpha: &str) -> (s: String)
        ensures
            s@ == self.css(alpha@),
    {
        let mut s = String::from_str("rgba(");
        push_decimal(&mut s, self.r);
        s.append(", ");
        push_decimal(&mut s, self.g);
        s.append(", ");
        push_decimal(&mut s, self.b);
        s.append(", ");
        s.append(alpha);
        s.append(")");
        s
    }

    /// Drops the alpha channel, whatever it holds, and keeps the other three.
    #[verifier::when_used_as_spec(spec_to_rgb)]
    pub fn to_rgb(&self) -> (res: RGB)
        ensures
            res == self.spec_to_rgb(),
    {
        RGB { r: self.r, g: self.g, b: self.b }
    }
}

impl PartialEq for RGBA {
    /// Two colours are equal when their channels are: the colour channels as
    /// integers, the alpha channels as numbers.
    fn eq(&self, other: &Self) -> (res: bool) {
        self.r == other.r && self.g == other.g && self.b == other.b && alpha_eq(self.a, other.a)
    }
}

impl PartialEqSpecImpl for RGBA {
    open spec fn obeys_eq_spec() -> bool {
        true
    }

    open spec fn eq_spec(&self, other: &Self) -> bool {
        &&& self.r == other.r
        &&& self.g == other.g
        &&& self.b == other.b
        &&& spec_alpha_eq(self.a, other.a)
    }
}

/// The colour with the given channels.
pub open spec fn spec_rgba(red: u8, green: u8, blue: u8, alpha: u32) -> RGBA {
    RGBA { r: red, g: green, b: blue, a: alpha }
}

/// Builds a translucent colour from its three colour channels and the
/// encoding of its alpha channel. The alpha is taken as it is.
#[verifier::when_used_as_spec(spec_rgba)]
pub fn rgba(red: u8, green: u8, blue: u8, alpha: u32) -> (res: RGBA)
    ensures
        res == spec_rgba(red, green, blue, alpha),
{
    RGBA { r: red, g: green, b: blue, a: alpha }
}

} // verus!
