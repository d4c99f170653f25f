//! Decimal numerals of natural numbers, as character sequences.

use vstd::prelude::*;

verus! {

/// The character that writes the single digit `d`: the digits follow one
/// another from `'0'` on.
pub open spec fn digit_char(d: nat) -> char
    recommends
        d < 10,
{
    ('0' as u8 + d) as u8 as char
}

/// Whether `c` is one of the ten digit characters.
pub open spec fn is_digit(c: char) -> bool {
    '0' as u32 <= c as u32 <= '9' as u32
}

/// The digit that `c` writes; meaningful only where `is_digit(c)`.
pub open spec fn digit_value(c: char) -> nat
    recommends
        is_digit(c),
{
    (c as u32 - '0' as u32) as nat
}

/// The base-10 numeral of `n`: most significant digit first, no sign, and no
/// leading zero except for the numeral of zero itself.
pub open spec fn decimal(n: nat) -> Seq<char>
    decreases n,
{
    if n < 10 {
        seq![digit_char(n)]
    } else {
        decimal(n / 10).push(digit_char(n % 10))
    }
}

/// The number that a sequence of digit characters writes in base 10.
pub open spec fn numeral_value(s: Seq<char>) -> nat
    decreases s.len(),
{
    if s.len() == 0 {
        0
    } else {
        10 * numeral_value(s.drop_last()) + digit_value(s.last())
    }
}

/// A numeral consists of digits only, starts with a zero only when it is the
/// numeral of zero, and writes the number it was made from.
pub proof fn lemma_decimal_numeral(n: nat)
    ensures
        decimal(n).len() >= 1,
        forall|i: int| 0 <= i < decimal(n).len() ==> is_digit(#[trigger] decimal(n)[i]),
        decimal(n)[0] == '0' <==> n == 0,
        numeral_value(decimal(n)) == n,
    decreases n,
{
    let s = decimal(n);
    if n < 10 {
        assert(s.drop_last() =~= Seq::<char>::empty());
        assert(numeral_value(s.drop_last()) == 0);
    } else {
        let head = decimal(n / 10);
        lemma_decimal_numeral(n / 10);
        assert(s.drop_last() =~= head);
        assert(s[0] == head[0]);
        assert forall|i: int| 0 <= i < s.len() implies is_digit(#[trigger] s[i]) by {
            if i < head.len() {
                assert(s[i] == head[i]);
            }
        }
    }
}

/// Different numbers have different numerals.
pub proof fn lemma_decimal_injective(m: nat, n: nat)
    requires
        decimal(m) == decimal(n),
    ensures
        m == n,
{
    lemma_decimal_numeral(m);
    lemma_decimal_numeral(n);
}

/// A numeral inside a text ends at the first character that is no digit: two
/// equal texts that each start with a numeral and go on with a character that
/// is no digit start with the numeral of the same number and go on alike.
pub proof fn lemma_decimal_delimited(m: nat, n: nat, u: Seq<char>, v: Seq<char>)
    requires
        decimal(m) + u == decimal(n) + v,
        u.len() > 0,
        !is_digit(u[0]),
        v.len() > 0,
        !is_digit(v[0]),
    ensures
        m == n,
        u == v,
{
    let a = decimal(m);
    let b = decimal(n);
    let s = a + u;
    let t = b + v;
    lemma_decimal_numeral(m);
    lemma_decimal_numeral(n);
    if a.len() < b.len() {
        assert(s[a.len() as int] == u[0]);
        assert(t[a.len() as int] == b[a.len() as int]);
    } else if b.len() < a.len() {
        assert(t[b.len() as int] == v[0]);
        assert(s[b.len() as int] == a[b.len() as int]);
    } else {
        assert(s.len() == t.len());
        assert forall|i: int| 0 <= i < a.len() implies a[i] == b[i] by {
            assert(s[i] == a[i]);
            assert(t[i] == b[i]);
        }
        assert(a =~= b);
        assert forall|i: int| 0 <= i < u.len() implies u[i] == v[i] by {
            assert(s[a.len() + i] == u[i]);
            assert(t[b.len() + i] == v[i]);
        }
        assert(u =~= v);
        lemma_decimal_injective(m, n);
    }
}

/// The one-character text of the digit `d`.
fn digit_str(d: u8) -> (s: &'static str)
    requires
        d < 10,
    ensures
        s@ == seq![digit_char(d as nat)],
{
    proof {
        reveal_strlit("0");
        reveal_strlit("1");
        reveal_strlit("2");
        reveal_strlit("3");
        reveal_strlit("4");
        reveal_strlit("5");
        reveal_strlit("6");
        reveal_strlit("7");
        reveal_strlit("8");
        reveal_strlit("9");
    }
    let s = match d {
        0 => "0",
        1 => "1",
        2 => "2",
        3 => "3",
        4 => "4",
        5 => "5",
        6 => "6",
        7 => "7",
        8 => "8",
        _ => "9",
    };
    assert(s@ =~= seq![digit_char(d as nat)]);
    s
}

/// Appends the decimal numeral of `n` to `out`.
pub fn push_decimal(out: &mut String, n: u8)
    ensures
        final(out)@ == old(out)@ + decimal(n as nat),
{
    proof {
        reveal_with_fuel(decimal, 3);
    }
    if n >= 100 {
        out.append(digit_str(n / 100));
    }
    if n >= 10 {
        out.append(digit_str((n / 10) % 10));
    }
    out.append(digit_str(n % 10));
    assert(out@ =~= old(out)@ + decimal(n as nat));
}

} // verus!
