//! Text building blocks: decimal digits and space padding.

use vstd::prelude::*;

verus! {

/// The character that stands for the digit `d` (0 to 9).
pub open spec fn digit_char(d: nat) -> char {
    ((48 + d) as u8) as char
}

/// The decimal digits of `n`, most significant first, with no leading zeros.
pub open spec fn decimal_of(n: nat) -> Seq<char>
    decreases n,
{
    if n < 10 {
        seq![digit_char(n)]
    } else {
        decimal_of(n / 10).push(digit_char(n % 10))
    }
}

/// `s` followed by as many spaces as it takes to reach `width` characters;
/// `s` itself when it is already that long.
pub open spec fn pad_to(s: Seq<char>, width: nat) -> Seq<char> {
    if s.len() >= width {
        s
    } else {
        s + Seq::new((width - s.len()) as nat, |i: int| ' ')
    }
}

/// Relies on `String::push`: the character is added at the end.
#[verifier::external_body]
pub(crate) fn push_char(s: &mut String, c: char)
    ensures
        final(s)@ == old(s)@.push(c),
{
    s.push(c)
}

/// Appends the decimal digits of `n` to `out`.
fn push_decimal(out: &mut String, n: u64)
    ensures
        final(out)@ == old(out)@ + decimal_of(n as nat),
    decreases n,
{
    if n < 10 {
        let c = (48u8 + n as u8) as char;
        push_char(out, c);
        assert(old(out)@.push(c) =~= old(out)@ + decimal_of(n as nat));
    } else {
        push_decimal(out, n / 10);
        let c = (48u8 + (n % 10) as u8) as char;
        push_char(out, c);
        assert(out@ =~= old(out)@ + decimal_of(n as nat));
    }
}

/// The decimal form of `n`.
pub fn decimal(n: u64) -> (r: String)
    ensures
        r@ == decimal_of(n as nat),
{
    let mut r = String::new();
    push_decimal(&mut r, n);
    assert(r@ =~= decimal_of(n as nat));
    r
}

/// `s` padded on the right with spaces to at least `width` characters.
pub fn pad_right(s: &str, width: usize) -> (r: String)
    ensures
        r@ == pad_to(s@, width as nat),
{
    let mut r = String::from_str(s);
    let len = s.unicode_len();
    if len < width {
        let mut i: usize = len;
        while i < width
            invariant
                len <= i <= width,
                len == s@.len(),
                r@ =~= s@ + Seq::new((i - len) as nat, |k: int| ' '),
            decreases width - i,
        {
            push_char(&mut r, ' ');
            i = i + 1;
        }
    }
    r
}

} // verus!
