//! Opaque colours.

use vstd::prelude::*;
use crate::alpha::OPAQUE;
use crate::decimal::{decimal, push_decimal};
use crate::rgba::RGBA;

verus! {

/// How much red, green and blue make up a colour, each from 0 to 255.
#[derive(Debug, Copy, Clone, PartialEq, Eq, Structural)]
pub struct RGB {
    /// red
    pub r: u8,
    /// green
    pub g: u8,
    /// blue
    pub b: u8,
}

impl RGB {
    /// The CSS text of the colour: `rgb(R, G, B)`, each channel as its decimal
    /// numeral.
    pub open spec fn css(&self) -> Seq<char> {
        "rgb("@ + decimal(self.r as nat) + ", "@ + decimal(self.g as nat) + ", "@ + decimal(
            self.b as nat,
        ) + ")"@
    }

    /// The same colour with an alpha channel, fully opaque.
    pub open spec fn spec_to_rgba(&self) -> RGBA {
        RGBA { r: self.r, g: self.g, b: self.b, a: OPAQUE }
    }

    /// Renders the colour as CSS.
    pub fn to_css(&self) -> (s: String)
        ensures
            s@ == self.css(),
    {
        let mut s = String::from_str("rgb(");
        push_decimal(&mut s, self.r);
        s.append(", ");
        push_decimal(&mut s, self.g);
        s.append(", ");
        push_decimal(&mut s, self.b);
        s.append(")");
        s
    }

    /// Adds an alpha channel of one: the channels are kept and the colour
    /// stays fully opaque.
    #[verifier::when_used_as_spec(spec_to_rgba)]
    pub fn to_rgba(&self) -> (res: RGBA)
        ensures
            res == self.spec_to_rgba(),
    {
        RGBA { r: self.r, g: self.g, b: self.b, a: OPAQUE }
    }
}

/// The colour with the given channels.
pub open spec fn spec_rgb(red: u8, green: u8, blue: u8) -> RGB {
    RGB { r: red, g: green, b: blue }
}

/// Builds an opaque colour from its three channels.
#[verifier::when_used_as_spec(spec_rgb)]
pub fn rgb(red: u8, green: u8, blue: u8) -> (res: RGB)
    ensures
        res == spec_rgb(red, green, blue),
{
    RGB { r: red, g: green, b: blue }
}

} // verus!
