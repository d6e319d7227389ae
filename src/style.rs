//! ANSI styling of names.

use vstd::prelude::*;

verus! {

/// Ends any styling.
pub const RESET: &'static str = "\x1B[0m";

/// Starts bold text.
pub const BOLD: &'static str = "\x1B[1m";

/// Starts blue text; directories are shown in it.
pub const BLUE: &'static str = "\x1B[34m";

/// `text` between the code `color` and the reset code.
pub open spec fn styled_color(text: Seq<char>, color: Seq<char>) -> Seq<char> {
    color + text + RESET@
}

/// `text` between the bold code and the reset code.
pub open spec fn styled_bold(text: Seq<char>) -> Seq<char> {
    BOLD@ + text + RESET@
}

/// Wraps `text` in the ANSI code `color` and a reset.
pub fn colorize_string(text: &str, color: &str) -> (r: String)
    ensures
        r@ == styled_color(text@, color@),
{
    let mut r = String::from_str(color);
    r.append(text);
    r.append(RESET);
    r
}

/// Wraps `text` in the bold code and a reset.
pub fn bold(text: &str) -> (r: String)
    ensures
        r@ == styled_bold(text@),
{
    let mut r = String::from_str(BOLD);
    r.append(text);
    r.append(RESET);
    r
}

} // verus!
