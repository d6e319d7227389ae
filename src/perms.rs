//! The `rwxrwxrwx` form of permission bits.

use vstd::prelude::*;
use crate::text::push_char;

verus! {

/// The bit of `mode` shown at position `i` (0 to 8): owner read first,
/// other execute last.
pub open spec fn permission_mask(i: int) -> u32 {
    (0o400u32 >> (i as u32)) as u32
}

/// The letter shown at position `i` when its bit is set.
pub open spec fn permission_letter(i: int) -> char {
    if i % 3 == 0 {
        'r'
    } else if i % 3 == 1 {
        'w'
    } else {
        'x'
    }
}

/// The nine characters for `mode`: each position holds its letter when the
/// bit is set, `-` when it is clear.
pub open spec fn permission_string(mode: u32) -> Seq<char> {
    Seq::new(
        9,
        |i: int|
            if mode & permission_mask(i) != 0 {
                permission_letter(i)
            } else {
                '-'
            },
    )
}

/// The nine-character permission string of `mode`, without a file type
/// character.
pub fn format_permissions(mode: u32) -> (r: String)
    ensures
        r@ == permission_string(mode),
{
    let mut r = String::new();
    let mut i: u32 = 0;
    while i < 9
        invariant
            i <= 9,
            r@.len() == i,
            forall|k: int| 0 <= k < i ==> r@[k] == #[trigger] permission_string(mode)[k],
        decreases 9 - i,
    {
        let mask: u32 = 0o400u32 >> i;
        let c = if mode & mask != 0 {
            if i % 3 == 0 {
                'r'
            } else if i % 3 == 1 {
                'w'
            } else {
                'x'
            }
        } else {
            '-'
        };
        push_char(&mut r, c);
        i = i + 1;
    }
    assert(r@ =~= permission_string(mode));
    r
}

} // verus!
