//! Numbers as decimal text. A cell shows a number by the first character of
//! its decimal rendering, so that rendering is defined here, together with
//! the function that computes its first character.

use vstd::prelude::*;

verus! {

/// Whether `c` is one of the ten ASCII digits.
pub open spec fn is_digit(c: char) -> bool {
    '0' <= c <= '9'
}

/// The character of the decimal digit `d`.
pub open spec fn digit_char(d: nat) -> char
    recommends
        d < 10,
{
    ('0' as nat + d) as char
}

/// The decimal rendering of `n`: its digits from the most significant to the
/// least, without a leading zero unless `n` is zero.
pub open spec fn decimal(n: nat) -> Seq<char>
    decreases n,
{
    if n < 10 {
        seq![digit_char(n)]
    } else {
        decimal(n / 10).push(digit_char(n % 10))
    }
}

/// The number that a sequence of digits denotes in base ten.
pub open spec fn decimal_value(digits: Seq<char>) -> nat
    decreases digits.len(),
{
    if digits.len() == 0 {
        0
    } else {
        (10 * decimal_value(digits.drop_last()) + (digits.last() as nat - '0' as nat)) as nat
    }
}

/// The rendering is never empty. That of a single digit starts with the
/// digit's character, and that of a longer number starts as the rendering
/// of its tenth does.
pub proof fn lemma_decimal_first(n: nat)
    ensures
        decimal(n).len() >= 1,
        n < 10 ==> decimal(n)[0] == digit_char(n),
        n >= 10 ==> decimal(n)[0] == decimal(n / 10)[0],
    decreases n,
{
    if n >= 10 {
        lemma_decimal_first(n / 10);
    }
}

/// The rendering is made of digits, starts with a zero only for zero, and
/// denotes the number it was made from: it is the one canonical decimal
/// text of that number.
pub proof fn lemma_decimal_canonical(n: nat)
    ensures
        decimal(n).len() >= 1,
        forall|i: int| 0 <= i < decimal(n).len() ==> is_digit(#[trigger] decimal(n)[i]),
        decimal(n)[0] == '0' <==> n == 0,
        decimal_value(decimal(n)) == n,
    decreases n,
{
    if n < 10 {
        assert(decimal(n).drop_last() =~= Seq::<char>::empty());
        assert(decimal_value(decimal(n).drop_last()) == 0);
    } else {
        lemma_decimal_canonical(n / 10);
        assert(decimal(n).drop_last() =~= decimal(n / 10));
    }
}

/// The first character of the decimal rendering of `n`.
pub fn first_decimal_char(n: u32) -> (c: char)
    ensures
        c == decimal(n as nat)[0],
{
    let mut leading: u32 = n;
    while leading >= 10
        invariant
            decimal(leading as nat)[0] == decimal(n as nat)[0],
        decreases leading,
    {
        proof {
            lemma_decimal_first(leading as nat);
        }
        leading = leading / 10;
    }
    proof {
        lemma_decimal_first(leading as nat);
    }
    ('0' as u8 + leading as u8) as char
}

} // verus!
