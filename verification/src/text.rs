use vstd::prelude::*;

verus! {

/// The ASCII code of the decimal digit `d`.
pub open spec fn digit_char(d: nat) -> u8 {
    (48 + d) as u8
}

/// The decimal representation of `n`, most significant digit first, with no
/// leading zeros (`0` is written as a single `'0'`).
pub open spec fn decimal_digits(n: nat) -> Seq<u8>
    decreases n,
{
    if n < 10 {
        seq![digit_char(n)]
    } else {
        decimal_digits(n / 10).push(digit_char(n % 10))
    }
}

/// A decimal representation is made of ASCII digits only, has a single
/// digit exactly for the numbers below ten, and never starts with a `'0'`
/// unless it is `"0"`.
pub proof fn lemma_decimal_digits_well_formed(n: nat)
    ensures
        decimal_digits(n).len() >= 1,
        forall|k: int|
            0 <= k < decimal_digits(n).len() ==> 48 <= #[trigger] decimal_digits(n)[k] <= 57,
        decimal_digits(n).len() > 1 ==> decimal_digits(n)[0] != 48,
        decimal_digits(n).len() == 1 <==> n < 10,
    decreases n,
{
    if n >= 10 {
        lemma_decimal_digits_well_formed(n / 10);
        let rest = decimal_digits(n / 10);
        assert(decimal_digits(n) == rest.push(digit_char(n % 10)));
        assert forall|k: int| 0 <= k < decimal_digits(n).len() implies 48
            <= #[trigger] decimal_digits(n)[k] <= 57 by {
            if k < rest.len() {
                assert(decimal_digits(n)[k] == rest[k]);
            }
        }
        assert(decimal_digits(n)[0] == rest[0]);
        if rest.len() == 1 {
            assert(1 <= n / 10 < 10);
            assert(rest[0] == digit_char(n / 10));
        }
    }
}

/// Writes `n` in decimal as ASCII bytes, as the checkpoint labels of the
/// debug overlay show it.
pub fn format_usize(n: usize) -> (digits: Vec<u8>)
    ensures
        digits@ == decimal_digits(n as nat),
{
    let mut digits: Vec<u8> = Vec::new();
    let mut rest: usize = n;
    while rest >= 10
        invariant
            decimal_digits(n as nat) == decimal_digits(rest as nat) + digits@,
        decreases rest,
    {
        let ghost before = digits@;
        let low: usize = rest % 10;
        digits.insert(0, (48 + low) as u8);
        assert(decimal_digits(rest as nat) == decimal_digits((rest / 10) as nat).push(
            digit_char(low as nat),
        ));
        assert(decimal_digits((rest / 10) as nat).push(digit_char(low as nat)) + before
            =~= decimal_digits((rest / 10) as nat) + digits@);
        rest = rest / 10;
    }
    let ghost before = digits@;
    digits.insert(0, (48 + rest) as u8);
    assert(decimal_digits(rest as nat) + before =~= digits@);
    digits
}

} // verus!
