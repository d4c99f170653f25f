//! What holds of the colour types and their operations taken together.

use vstd::prelude::*;
use vstd::std_specs::cmp::PartialEqSpec;
use vstd::seq_lib::lemma_concat_associative;
use crate::alpha::{lemma_opaque_is_a_number, spec_alpha_eq, spec_is_nan, spec_is_zero, OPAQUE};
use crate::decimal::{decimal, is_digit, lemma_decimal_delimited};
use crate::rgb::{rgb, RGB};
use crate::rgba::{rgba, RGBA};

verus! {

/// A colour built from three channels renders as `rgb(`, the decimal numerals
/// of red, green and blue separated by a comma and a space, and `)`.
pub proof fn lemma_rgb_renders(red: u8, green: u8, blue: u8)
    ensures
        rgb(red, green, blue).css() == "rgb("@ + decimal(red as nat) + ", "@ + decimal(
            green as nat,
        ) + ", "@ + decimal(blue as nat) + ")"@,
{
}

/// A colour built from three channels and an alpha renders as `rgba(`, the
/// decimal numerals of red, green and blue, the text of the alpha, each
/// separated from the next by a comma and a space, and `)`. The encoding of
/// the alpha has no part in the text beyond the numeral given for it.
pub proof fn lemma_rgba_renders(red: u8, green: u8, blue: u8, alpha: u32, alpha_text: Seq<char>)
    ensures
        rgba(red, green, blue, alpha).css(alpha_text) == "rgba("@ + decimal(red as nat) + ", "@
            + decimal(green as nat) + ", "@ + decimal(blue as nat) + ", "@ + alpha_text + ")"@,
{
}

/// A prefix in front of a channel list can be set apart from it.
proof fn lemma_regroup_after_prefix(
    prefix: Seq<char>,
    r: nat,
    g: nat,
    b: nat,
    sep: Seq<char>,
    end: Seq<char>,
)
    ensures
        prefix + decimal(r) + sep + decimal(g) + sep + decimal(b) + end == prefix + (decimal(r)
            + sep + decimal(g) + sep + decimal(b) + end),
{
    let t1 = decimal(r);
    let t2 = t1 + sep;
    let t3 = t2 + decimal(g);
    let t4 = t3 + sep;
    let t5 = t4 + decimal(b);
    lemma_concat_associative(prefix, t1, sep);
    lemma_concat_associative(prefix, t2, decimal(g));
    lemma_concat_associative(prefix, t3, sep);
    lemma_concat_associative(prefix, t4, decimal(b));
    lemma_concat_associative(prefix, t5, end);
}

/// A numeral and a mark that starts with no digit, in front of two texts: if
/// the whole is the same, so are the number and the text after the mark.
proof fn lemma_numeral_and_mark(m: nat, n: nat, mark: Seq<char>, x: Seq<char>, y: Seq<char>)
    requires
        decimal(m) + (mark + x) == decimal(n) + (mark + y),
        mark.len() > 0,
        !is_digit(mark[0]),
    ensures
        m == n,
        x == y,
{
    assert((mark + x)[0] == mark[0]);
    assert((mark + y)[0] == mark[0]);
    lemma_decimal_delimited(m, n, mark + x, mark + y);
    mark.lemma_concat_injective(x, y);
}

/// The three numerals of a channel list, each followed by a separator that
/// starts with no digit (the last by `end`), in front of two texts: if the
/// whole is the same, so are the three numbers and the texts.
proof fn lemma_channels_delimited(
    x: (nat, nat, nat),
    y: (nat, nat, nat),
    sep: Seq<char>,
    end: Seq<char>,
    u: Seq<char>,
    v: Seq<char>,
)
    requires
        decimal(x.0) + sep + decimal(x.1) + sep + decimal(x.2) + end + u == decimal(y.0) + sep
            + decimal(y.1) + sep + decimal(y.2) + end + v,
        sep.len() > 0,
        !is_digit(sep[0]),
        end.len() > 0,
        !is_digit(end[0]),
    ensures
        x == y,
        u == v,
{
    let x3 = decimal(x.2) + (end + u);
    let x2 = decimal(x.1) + (sep + x3);
    let y3 = decimal(y.2) + (end + v);
    let y2 = decimal(y.1) + (sep + y3);
    assert(decimal(x.0) + sep + decimal(x.1) + sep + decimal(x.2) + end + u == decimal(x.0) + (sep
        + x2)) by {
        let t1 = decimal(x.0) + sep;
        let t2 = t1 + decimal(x.1);
        let t3 = t2 + sep;
        let t4 = t3 + decimal(x.2);
        lemma_concat_associative(t4, end, u);
        lemma_concat_associative(t3, decimal(x.2), end + u);
        lemma_concat_associative(t2, sep, x3);
        lemma_concat_associative(t1, decimal(x.1), sep + x3);
        lemma_concat_associative(decimal(x.0), sep, x2);
    }
    assert(decimal(y.0) + sep + decimal(y.1) + sep + decimal(y.2) + end + v == decimal(y.0) + (sep
        + y2)) by {
        let t1 = decimal(y.0) + sep;
        let t2 = t1 + decimal(y.1);
        let t3 = t2 + sep;
        let t4 = t3 + decimal(y.2);
        lemma_concat_associative(t4, end, v);
        lemma_concat_associative(t3, decimal(y.2), end + v);
        lemma_concat_associative(t2, sep, y3);
        lemma_concat_associative(t1, decimal(y.1), sep + y3);
        lemma_concat_associative(decimal(y.0), sep, y2);
    }
    lemma_numeral_and_mark(x.0, y.0, sep, x2, y2);
    lemma_numeral_and_mark(x.1, y.1, sep, x3, y3);
    lemma_numeral_and_mark(x.2, y.2, end, u, v);
}

/// Different opaque colours have different CSS texts.
pub proof fn lemma_rgb_css_injective(x: RGB, y: RGB)
    requires
        x.css() == y.css(),
    ensures
        x == y,
{
    let prefix = "rgb("@;
    let sep = ", "@;
    let end = ")"@;
    let xs = decimal(x.r as nat) + sep + decimal(x.g as nat) + sep + decimal(x.b as nat) + end;
    let ys = decimal(y.r as nat) + sep + decimal(y.g as nat) + sep + decimal(y.b as nat) + end;
    assert(x.css() == prefix + xs && y.css() == prefix + ys) by {
        lemma_regroup_after_prefix(prefix, x.r as nat, x.g as nat, x.b as nat, sep, end);
        lemma_regroup_after_prefix(prefix, y.r as nat, y.g as nat, y.b as nat, sep, end);
    }
    prefix.lemma_concat_injective(xs, ys);
    assert(sep.len() > 0 && !is_digit(sep[0]) && end.len() > 0 && !is_digit(end[0])) by {
        reveal_strlit(", ");
        reveal_strlit(")");
    }
    let none = Seq::<char>::empty();
    assert(xs + none =~= xs);
    assert(ys + none =~= ys);
    lemma_channels_delimited(
        (x.r as nat, x.g as nat, x.b as nat),
        (y.r as nat, y.g as nat, y.b as nat),
        sep,
        end,
        none,
        none,
    );
}

/// The CSS text of a translucent colour tells its three colour channels and
/// the alpha text it was rendered around: two equal texts come from the same
/// channels and the same alpha text.
pub proof fn lemma_rgba_css_injective(x: RGBA, s: Seq<char>, y: RGBA, t: Seq<char>)
    requires
        x.css(s) == y.css(t),
    ensures
        x.r == y.r,
        x.g == y.g,
        x.b == y.b,
        s == t,
{
    let prefix = "rgba("@;
    let sep = ", "@;
    let end = ")"@;
    let xs = decimal(x.r as nat) + sep + decimal(x.g as nat) + sep + decimal(x.b as nat) + sep;
    let ys = decimal(y.r as nat) + sep + decimal(y.g as nat) + sep + decimal(y.b as nat) + sep;
    assert(x.css(s) == prefix + (xs + (s + end)) && y.css(t) == prefix + (ys + (t + end))) by {
        lemma_regroup_after_prefix(prefix, x.r as nat, x.g as nat, x.b as nat, sep, sep);
        lemma_regroup_after_prefix(prefix, y.r as nat, y.g as nat, y.b as nat, sep, sep);
        lemma_concat_associative(prefix + xs, s, end);
        lemma_concat_associative(prefix, xs, s + end);
        lemma_concat_associative(prefix + ys, t, end);
        lemma_concat_associative(prefix, ys, t + end);
    }
    prefix.lemma_concat_injective(xs + (s + end), ys + (t + end));
    assert(sep.len() > 0 && !is_digit(sep[0])) by {
        reveal_strlit(", ");
    }
    lemma_channels_delimited(
        (x.r as nat, x.g as nat, x.b as nat),
        (y.r as nat, y.g as nat, y.b as nat),
        sep,
        sep,
        s + end,
        t + end,
    );
    assert(s =~= (s + end).subrange(0, s.len() as int));
    assert(t =~= (t + end).subrange(0, t.len() as int));
}

/// Adding an alpha channel and dropping it again gives back the colour.
pub proof fn lemma_round_trip(c: RGB)
    ensures
        c.to_rgba().to_rgb() == c,
{
}

/// Adding an alpha channel keeps the three colour channels and makes the
/// alpha one.
pub proof fn lemma_to_rgba_opaque(c: RGB)
    ensures
        c.to_rgba().r == c.r,
        c.to_rgba().g == c.g,
        c.to_rgba().b == c.b,
        c.to_rgba().a == OPAQUE,
{
}

/// An opaque colour given an alpha channel is the translucent colour built
/// from the same channels and an alpha of one, and compares equal to it.
pub proof fn lemma_to_rgba_is_rgba_of_one(red: u8, green: u8, blue: u8)
    ensures
        rgb(red, green, blue).to_rgba() == rgba(red, green, blue, OPAQUE),
        rgb(red, green, blue).to_rgba().eq_spec(&rgba(red, green, blue, OPAQUE)),
{
    lemma_opaque_is_a_number();
}

/// Dropping the alpha channel keeps the three colour channels exactly, and
/// the result does not depend on the alpha that was dropped.
pub proof fn lemma_to_rgb_discards_alpha(c: RGBA, alpha: u32)
    ensures
        c.to_rgb().r == c.r,
        c.to_rgb().g == c.g,
        c.to_rgb().b == c.b,
        rgba(c.r, c.g, c.b, alpha).to_rgb() == c.to_rgb(),
{
}

/// Dropping the alpha channel and adding one again gives back the translucent
/// colour exactly when its alpha was one.
pub proof fn lemma_round_trip_back(c: RGBA)
    ensures
        c.to_rgb().to_rgba() == c <==> c.a == OPAQUE,
{
}

/// Equality of opaque colours is reflexive and symmetric, and holds exactly
/// when the three channels are the same.
pub proof fn lemma_rgb_equality(x: RGB, y: RGB)
    ensures
        x == x,
        (x == y) == (y == x),
        (x == y) <==> (x.r == y.r && x.g == y.g && x.b == y.b),
{
}

/// Equality of translucent colours holds exactly when the three colour
/// channels are the same and the alpha channels are equal as numbers.
pub proof fn lemma_rgba_equality_by_field(x: RGBA, y: RGBA)
    ensures
        x.eq_spec(&y) <==> (x.r == y.r && x.g == y.g && x.b == y.b && spec_alpha_eq(x.a, y.a)),
{
}

/// Equality of translucent colours is symmetric.
pub proof fn lemma_rgba_equality_symmetric(x: RGBA, y: RGBA)
    ensures
        x.eq_spec(&y) == y.eq_spec(&x),
{
}

/// A translucent colour whose alpha is a number equals itself.
pub proof fn lemma_rgba_equality_reflexive(x: RGBA)
    requires
        !spec_is_nan(x.a),
    ensures
        x.eq_spec(&x),
{
}

/// A translucent colour whose alpha is not a number equals no colour, not
/// even itself.
pub proof fn lemma_rgba_nan_equals_nothing(x: RGBA, y: RGBA)
    requires
        spec_is_nan(x.a),
    ensures
        !x.eq_spec(&y),
        !y.eq_spec(&x),
{
}

/// Equality of translucent colours has no tolerance: equal colours are the
/// same record, field for field, unless their alphas are the two zeros.
pub proof fn lemma_rgba_equality_exact(x: RGBA, y: RGBA)
    requires
        x.eq_spec(&y),
    ensures
        x == y || (spec_is_zero(x.a) && spec_is_zero(y.a)),
{
}

/// Equality of translucent colours is transitive.
pub proof fn lemma_rgba_equality_transitive(x: RGBA, y: RGBA, z: RGBA)
    requires
        x.eq_spec(&y),
        y.eq_spec(&z),
    ensures
        x.eq_spec(&z),
{
}

} // verus!
