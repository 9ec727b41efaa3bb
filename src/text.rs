use vstd::prelude::*;

verus! {

/// The character of a decimal digit.
pub open spec fn digit_char(d: nat) -> char {
    if d == 0 { '0' }
    else if d == 1 { '1' }
    else if d == 2 { '2' }
    else if d == 3 { '3' }
    else if d == 4 { '4' }
    else if d == 5 { '5' }
    else if d == 6 { '6' }
    else if d == 7 { '7' }
    else if d == 8 { '8' }
    else { '9' }
}

/// The decimal digits of `n`, without leading zeros ("0" for zero).
pub open spec fn decimal(n: nat) -> Seq<char>
    decreases n,
{
    if n < 10 {
        seq![digit_char(n)]
    } else {
        decimal(n / 10).push(digit_char(n % 10))
    }
}

/// `scaled / 10^places` written with exactly `places` digits after the
/// point, and no point when `places` is zero.
pub open spec fn fixed_point(scaled: nat, places: nat) -> Seq<char> {
    if places == 0 {
        decimal(scaled)
    } else {
        decimal(scaled / pow10(places)) + "."@ + frac_digits(scaled, places)
    }
}

/// Ten to the power `p`.
pub open spec fn pow10(p: nat) -> nat
    decreases p,
{
    if p == 0 { 1 } else { 10 * pow10((p - 1) as nat) }
}

/// The last `places` decimal digits of `n`, zeros included.
pub open spec fn frac_digits(n: nat, places: nat) -> Seq<char>
    decreases places,
{
    if places == 0 {
        Seq::empty()
    } else {
        frac_digits(n / 10, (places - 1) as nat).push(digit_char(n % 10))
    }
}

/// `n / d` rounded to the nearest integer, an exact half going to the even
/// neighbour (the rule of std's `{:.N}` formatting).
pub open spec fn div_round(n: nat, d: nat) -> nat
    recommends
        d > 0,
{
    let q = n / d;
    let twice_rem = 2 * (n % d);
    if twice_rem > d || (twice_rem == d && q % 2 == 1) {
        q + 1
    } else {
        q
    }
}

/// Ten to a power is positive.
pub proof fn lemma_pow10_positive(p: nat)
    ensures
        pow10(p) > 0,
    decreases p,
{
    if p > 0 {
        lemma_pow10_positive((p - 1) as nat);
    }
}

/// `n / d` rounded to the nearest integer, ties to even.
pub fn round_div(n: u128, d: u128) -> (r: u128)
    requires
        d > 0,
    ensures
        r == div_round(n as nat, d as nat),
{
    let q = n / d;
    let rem = n % d;
    // 2 * rem may exceed u128; compare rem with d - rem instead.
    let other = d - rem;
    if rem > other || (rem == other && q % 2 == 1) {
        proof {
            vstd::arithmetic::div_mod::lemma_div_is_ordered_by_denominator(n as int, 2, d as int);
        }
        q + 1
    } else {
        q
    }
}

/// The one-character string of a decimal digit.
pub fn digit_str(d: u128) -> (r: &'static str)
    requires
        d < 10,
    ensures
        r@ == seq![digit_char(d as nat)],
{
    proof {
        reveal_strlit("0");
        reveal_strlit("1");
        reveal_strlit("2");
        reveal_strlit("3");
        reveal_strlit("4");
        reveal_strlit("5");
        reveal_strlit("6");
        reveal_strlit("7");
        reveal_strlit("8");
        reveal_strlit("9");
    }
    let r = if d == 0 { "0" }
    else if d == 1 { "1" }
    else if d == 2 { "2" }
    else if d == 3 { "3" }
    else if d == 4 { "4" }
    else if d == 5 { "5" }
    else if d == 6 { "6" }
    else if d == 7 { "7" }
    else if d == 8 { "8" }
    else { "9" };
    assert(r@ =~= seq![digit_char(d as nat)]);
    r
}

/// Appends the decimal digits of `n` to `s`.
pub fn push_decimal(s: &mut String, n: u128)
    ensures
        final(s)@ == old(s)@ + decimal(n as nat),
    decreases n,
{
    if n < 10 {
        s.append(digit_str(n));
    } else {
        push_decimal(s, n / 10);
        s.append(digit_str(n % 10));
        assert(final(s)@ =~= old(s)@ + decimal(n as nat));
    }
}

/// Appends the last `places` decimal digits of `n`, zeros included.
pub fn push_frac_digits(s: &mut String, n: u128, places: u64)
    ensures
        final(s)@ == old(s)@ + frac_digits(n as nat, places as nat),
    decreases places,
{
    if places > 0 {
        push_frac_digits(s, n / 10, places - 1);
        s.append(digit_str(n % 10));
        assert(final(s)@ =~= old(s)@ + frac_digits(n as nat, places as nat));
    } else {
        assert(final(s)@ =~= old(s)@ + frac_digits(n as nat, places as nat));
    }
}

/// Appends `scaled / 10^places` with `places` digits after the point.
pub fn push_fixed_point(s: &mut String, scaled: u128, places: u64)
    ensures
        final(s)@ == old(s)@ + fixed_point(scaled as nat, places as nat),
{
    if places == 0 {
        push_decimal(s, scaled);
    } else {
        let mut whole: u128 = scaled;
        let mut k: u64 = 0;
        assert(pow10(0) == 1);
        while k < places
            invariant
                k <= places,
                whole as nat == scaled as nat / pow10(k as nat),
            decreases places - k,
        {
            proof {
                lemma_pow10_positive(k as nat);
                vstd::arithmetic::div_mod::lemma_div_denominator(
                    scaled as int,
                    pow10(k as nat) as int,
                    10,
                );
                assert(pow10(k as nat + 1) == pow10(k as nat) * 10);
            }
            whole = whole / 10;
            k = k + 1;
        }
        push_decimal(s, whole);
        s.append(".");
        proof { reveal_strlit("."); }
        push_frac_digits(s, scaled, places);
        assert(final(s)@ =~= old(s)@ + fixed_point(scaled as nat, places as nat));
    }
}

} // verus!
