//! Decimal rendering of array indices, as instance paths and messages embed them.

use vstd::prelude::*;
use vstd::string::*;

verus! {

/// The ten decimal digits in order.
pub open spec fn digits() -> Seq<char> {
    "0123456789"@
}

/// The one-character text of a digit below ten.
pub open spec fn digit_text(d: nat) -> Seq<char> {
    digits().subrange(d as int, d as int + 1)
}

/// The decimal text of `n`: most significant digit first, no leading zero,
/// and `0` for zero.
pub open spec fn decimal_text(n: nat) -> Seq<char>
    decreases n,
{
    if n < 10 {
        digit_text(n)
    } else {
        decimal_text(n / 10) + digit_text(n % 10)
    }
}

/// Appends the decimal text of `n` to `text`.
pub fn append_decimal(text: &mut String, n: usize)
    ensures
        final(text)@ == old(text)@ + decimal_text(n as nat),
    decreases n,
{
    proof {
        reveal_strlit("0123456789");
    }
    if n >= 10 {
        append_decimal(text, n / 10);
    }
    let d: usize = n % 10;
    text.append("0123456789".substring_char(d, d + 1));
    proof {
        let before = old(text)@;
        if n >= 10 {
            assert(before + decimal_text((n / 10) as nat) + digit_text((n % 10) as nat)
                =~= before + (decimal_text((n / 10) as nat) + digit_text((n % 10) as nat)));
        }
    }
}

/// The decimal text of `n` as a string of its own.
pub fn decimal_string(n: usize) -> (text: String)
    ensures
        text@ == decimal_text(n as nat),
{
    let mut text = String::new();
    append_decimal(&mut text, n);
    assert(Seq::<char>::empty() + decimal_text(n as nat) =~= decimal_text(n as nat));
    text
}

} // verus!
