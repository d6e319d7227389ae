//! A small directory lister: the text it prints for a list of directory
//! entries, in a compact one-line form or one detailed row per entry.

mod text;
mod style;
mod perms;
mod size;
mod clock;
mod listing;

pub use clock::{time_in_range, TIME_LIMIT};
pub use text::{decimal, decimal_of, digit_char, pad_right, pad_to};
pub use style::{bold, colorize_string, styled_bold, styled_color, BLUE, BOLD, RESET};
pub use perms::{format_permissions, permission_letter, permission_mask, permission_string};
pub use size::{format_size, pow1024, size_exponent, size_string, tenths_rounded, unit_letter};
pub use listing::{
    all_times_in_range, are_rows_of, compact_line, compact_token, filter_entries, format_compact,
    format_compact_token, format_long_row, is_hidden, is_hidden_name, is_listed,
    is_long_listing_of, is_row_of, is_shown,
    lemma_all_lists_every_entry, lemma_hidden_entries_left_out, lemma_unknown_ids_blank,
    long_name, long_row, long_row_text, long_rows, name_or_empty, render_listing,
    visible_entries, DirEntryInfo, ListError, Listing,
};
