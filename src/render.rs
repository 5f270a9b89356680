//! Fixed-width rendering of numbers in a radix up to sixteen.

use vstd::prelude::*;
use vstd::string::{StrSliceExecFns, StringExecFns};

verus! {

/// The digit characters, in order of value.
pub open spec fn digit_chars() -> Seq<char> {
    "0123456789abcdef"@
}

/// The last `n` digits of `v` in base `radix`, most significant first,
/// padded with zeros.
pub open spec fn fixed_digits(v: nat, radix: nat, n: nat) -> Seq<char>
    decreases n,
{
    if n == 0 || radix == 0 {
        Seq::empty()
    } else {
        fixed_digits(v / radix, radix, (n - 1) as nat).push(digit_chars()[(v % radix) as int])
    }
}

pub proof fn lemma_fixed_digits_len(v: nat, radix: nat, n: nat)
    requires
        radix > 0,
    ensures
        fixed_digits(v, radix, n).len() == n,
    decreases n,
{
    if n > 0 {
        lemma_fixed_digits_len(v / radix, radix, (n - 1) as nat);
    }
}

/// Appends the last `n` digits of `v` in base `radix` to `out`.
pub fn push_digits(out: &mut String, v: u128, radix: u128, n: usize)
    requires
        2 <= radix <= 16,
    ensures
        final(out)@ == old(out)@ + fixed_digits(v as nat, radix as nat, n as nat),
    decreases n,
{
    if n == 0 {
        assert(old(out)@ + Seq::<char>::empty() =~= old(out)@);
        return;
    }
    push_digits(out, v / radix, radix, n - 1);
    let d = (v % radix) as usize;
    let table = "0123456789abcdef";
    proof {
        reveal_strlit("0123456789abcdef");
    }
    let digit = table.substring_char(d, d + 1);
    out.append(digit);
    assert(digit@ =~= seq![digit_chars()[d as int]]);
    assert(final(out)@ =~= old(out)@ + fixed_digits(v as nat, radix as nat, n as nat));
}

} // verus!
