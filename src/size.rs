//! Human-readable byte counts.

use vstd::prelude::*;
use vstd::arithmetic::div_mod::{lemma_div_denominator, lemma_fundamental_div_mod};
use crate::text::{decimal, decimal_of, push_char};

verus! {

/// `1024` to the power `e`.
pub open spec fn pow1024(e: nat) -> nat
    decreases e,
{
    if e == 0 {
        1
    } else {
        1024 * pow1024((e - 1) as nat)
    }
}

/// `floor(log_1024(n))` for `n >= 1`: how many times `n` can be divided by
/// 1024 before it drops below 1024.
pub open spec fn size_exponent(n: nat) -> nat
    decreases n,
{
    if n < 1024 {
        0
    } else {
        1 + size_exponent(n / 1024)
    }
}

/// The unit letter for exponent `e`: 1 is `K`, 2 `M`, 3 `G`, 4 `T`, and
/// every larger one `P`.
pub open spec fn unit_letter(e: nat) -> char {
    if e == 1 {
        'K'
    } else if e == 2 {
        'M'
    } else if e == 3 {
        'G'
    } else if e == 4 {
        'T'
    } else {
        'P'
    }
}

/// `n / d` in tenths, rounded to the nearest tenth, a tie going to the even
/// neighbour.
pub open spec fn tenths_rounded(n: nat, d: nat) -> nat
    recommends
        d > 0,
{
    let q = (10 * n) / d;
    let r = (10 * n) % d;
    if 2 * r > d || (2 * r == d && q % 2 == 1) {
        q + 1
    } else {
        q
    }
}

/// The text for a size of `n` bytes: `"{n} B"` below 1024, otherwise `n`
/// divided by `1024^e` with one fractional digit, then the unit letter of `e`
/// and `B`, where `e = floor(log_1024(n))`.
pub open spec fn size_string(n: nat) -> Seq<char> {
    if n < 1024 {
        decimal_of(n) + seq![' ', 'B']
    } else {
        let e = size_exponent(n);
        let t = tenths_rounded(n, pow1024(e));
        decimal_of(t / 10) + seq!['.'] + decimal_of(t % 10) + seq![' ', unit_letter(e), 'B']
    }
}

fn unit_char(e: u64) -> (c: char)
    ensures
        c == unit_letter(e as nat),
{
    if e == 1 {
        'K'
    } else if e == 2 {
        'M'
    } else if e == 3 {
        'G'
    } else if e == 4 {
        'T'
    } else {
        'P'
    }
}

/// The humanized size of `size` bytes, such as `"1023 B"` or `"1.5 KB"`.
pub fn format_size(size: u64) -> (r: String)
    ensures
        r@ == size_string(size as nat),
{
    if size < 1024 {
        let mut r = decimal(size);
        push_char(&mut r, ' ');
        push_char(&mut r, 'B');
        assert(r@ =~= size_string(size as nat));
        return r;
    }
    let mut d: u64 = 1;
    let mut m: u64 = size;
    let mut e: u64 = 0;
    while m >= 1024
        invariant
            d as nat == pow1024(e as nat),
            d >= 1,
            e <= d,
            m as nat == size as nat / d as nat,
            size_exponent(size as nat) == e + size_exponent(m as nat),
        decreases m,
    {
        proof {
            lemma_fundamental_div_mod(size as int, d as int);
            assert(size as int >= d as int * 1024) by (nonlinear_arith)
                requires
                    size as int == d as int * (size as int / d as int) + size as int % d as int,
                    size as int / d as int >= 1024,
                    size as int % d as int >= 0,
                    d >= 1,
            ;
            lemma_div_denominator(size as int, d as int, 1024);
        }
        d = d * 1024;
        m = m / 1024;
        e = e + 1;
    }
    let big: u128 = 10 * (size as u128);
    let q: u128 = big / (d as u128);
    let rem: u128 = big % (d as u128);
    proof {
        lemma_fundamental_div_mod(size as int, d as int);
        assert(q < 10240) by (nonlinear_arith)
            requires
                size as int == d as int * (size as int / d as int) + size as int % d as int,
                (size as int / d as int) < 1024,
                (size as int % d as int) < d as int,
                big as int == 10 * size as int,
                q as int == big as int / d as int,
                d >= 1,
        ;
    }
    let t: u128 = if 2 * rem > d as u128 || (2 * rem == d as u128 && q % 2 == 1) {
        q + 1
    } else {
        q
    };
    let whole: u64 = (t / 10) as u64;
    let frac: u64 = (t % 10) as u64;
    let mut r = decimal(whole);
    push_char(&mut r, '.');
    let f = decimal(frac);
    r.append(f.as_str());
    push_char(&mut r, ' ');
    push_char(&mut r, unit_char(e));
    push_char(&mut r, 'B');
    assert(r@ =~= size_string(size as nat));
    r
}

} // verus!
