//! Directory entries and the text a listing of them prints.

use vstd::prelude::*;
use crate::clock::{local_time_stamp, time_in_range};
use crate::perms::{format_permissions, permission_string};
use crate::size::{format_size, size_string};
use crate::style::{bold, colorize_string, styled_bold, styled_color, BLUE};
use crate::text::{pad_right, pad_to};

verus! {

/// What a listing needs to know of one member of a directory.
pub struct DirEntryInfo {
    /// The entry's file name.
    pub name: String,
    /// Whether the entry is a directory.
    pub is_dir: bool,
    /// The permission and type bits.
    pub mode: u32,
    /// The owner's user name, or `None` when the user id is unknown.
    pub owner: Option<String>,
    /// The group name, or `None` when the group id is unknown.
    pub group: Option<String>,
    /// The size in bytes.
    pub size: u64,
    /// The modification time, in seconds since the Unix epoch.
    pub modified: i64,
}

/// The lines of a listing, and the error that stopped it early, if any.
pub struct Listing {
    /// The lines made, in the order they are printed.
    pub lines: Vec<String>,
    /// Why the listing stopped before its end; `None` when it is complete.
    pub error: Option<ListError>,
}

/// Why a listing could not be made.
#[derive(Debug)]
pub enum ListError {
    /// The directory could not be opened or read.
    DirectoryOpenFailure(String),
    /// The metadata of one entry could not be read.
    MetadataFetchFailure(String),
    /// A modification time could not be turned into a date.
    TimestampConversionFailure,
    /// Writing the listing failed.
    OutputWriteFailure(String),
}

/// A name starting with `.` is hidden.
pub open spec fn is_hidden_name(name: Seq<char>) -> bool {
    name.len() > 0 && name[0] == '.'
}

/// Whether an entry is listed: always with `all`, otherwise when its name is
/// not hidden.
pub open spec fn is_shown(e: DirEntryInfo, all: bool) -> bool {
    all || !is_hidden_name(e.name@)
}

/// The entries of `s` that are listed, in their order.
pub open spec fn visible_entries(s: Seq<DirEntryInfo>, all: bool) -> Seq<DirEntryInfo>
    decreases s.len(),
{
    if s.len() == 0 {
        s
    } else {
        let rest = visible_entries(s.drop_first(), all);
        if is_shown(s[0], all) {
            seq![s[0]] + rest
        } else {
            rest
        }
    }
}

/// How an entry's name reads in the compact form: bold and blue for a
/// directory, the plain name otherwise.
pub open spec fn compact_token(e: DirEntryInfo) -> Seq<char> {
    if e.is_dir {
        styled_color(styled_bold(e.name@), BLUE@)
    } else {
        e.name@
    }
}

/// The compact line: each entry's token followed by two spaces.
pub open spec fn compact_line(s: Seq<DirEntryInfo>) -> Seq<char>
    decreases s.len(),
{
    if s.len() == 0 {
        Seq::empty()
    } else {
        compact_line(s.drop_last()) + compact_token(s.last()) + seq![' ', ' ']
    }
}

/// A resolved name, or nothing when it is unknown.
pub open spec fn name_or_empty(n: Option<String>) -> Seq<char> {
    match n {
        Some(s) => s@,
        None => Seq::empty(),
    }
}

/// How an entry's name reads in a detailed row: blue for a directory.
pub open spec fn long_name(e: DirEntryInfo) -> Seq<char> {
    if e.is_dir {
        styled_color(e.name@, BLUE@)
    } else {
        e.name@
    }
}

/// The detailed row of `e` with the modification time text `time`.
pub open spec fn long_row_text(e: DirEntryInfo, time: Seq<char>) -> Seq<char> {
    pad_to(permission_string(e.mode), 10) + seq![' '] + pad_to(name_or_empty(e.owner), 8) + seq![
        ' ',
    ] + pad_to(name_or_empty(e.group), 8) + seq![' '] + pad_to(size_string(e.size as nat), 10)
        + seq![' '] + pad_to(time, 15) + seq![' '] + long_name(e)
}

/// `row` is the detailed row of `e` for some twelve-character time text.
pub open spec fn is_row_of(row: Seq<char>, e: DirEntryInfo) -> bool {
    exists|t: Seq<char>| t.len() == 12 && row == long_row_text(e, t)
}

/// `rows` holds one detailed row for each entry of `s`, in the same order.
pub open spec fn are_rows_of(rows: Seq<String>, s: Seq<DirEntryInfo>) -> bool {
    rows.len() == s.len() && forall|i: int| 0 <= i < rows.len() ==> #[trigger] is_row_of(rows[i]@, s[i])
}

/// Without `all`, the listed entries are exactly those of `s` whose name
/// does not start with `.`.
pub proof fn lemma_hidden_entries_left_out(s: Seq<DirEntryInfo>)
    ensures
        forall|x: DirEntryInfo|
            #[trigger] visible_entries(s, false).contains(x) <==> (s.contains(x)
                && !is_hidden_name(x.name@)),
    decreases s.len(),
{
    if s.len() > 0 {
        lemma_hidden_entries_left_out(s.drop_first());
        assert forall|x: DirEntryInfo|
            #[trigger] visible_entries(s, false).contains(x) <==> (s.contains(x)
                && !is_hidden_name(x.name@)) by {
            assert(s =~= seq![s[0]] + s.drop_first());
            if s.contains(x) && x != s[0] {
                let j = choose|j: int| 0 <= j < s.len() && s[j] == x;
                assert(s.drop_first()[j - 1] == x);
            }
            if s.drop_first().contains(x) {
                let j = choose|j: int| 0 <= j < s.drop_first().len() && s.drop_first()[j] == x;
                assert(s[j + 1] == x);
            }
            if is_shown(s[0], false) {
                let rest = visible_entries(s.drop_first(), false);
                assert((seq![s[0]] + rest)[0] == s[0]);
                if rest.contains(x) {
                    let j = choose|j: int| 0 <= j < rest.len() && rest[j] == x;
                    assert((seq![s[0]] + rest)[j + 1] == x);
                }
                if (seq![s[0]] + rest).contains(x) && x != s[0] {
                    let j = choose|j: int| 0 <= j < rest.len() + 1 && (seq![s[0]] + rest)[j] == x;
                    assert(rest[j - 1] == x);
                }
            }
        }
    }
}

/// With `all`, every entry is listed, in its order.
pub proof fn lemma_all_lists_every_entry(s: Seq<DirEntryInfo>)
    ensures
        visible_entries(s, true) == s,
    decreases s.len(),
{
    if s.len() > 0 {
        lemma_all_lists_every_entry(s.drop_first());
        assert(seq![s[0]] + s.drop_first() =~= s);
    }
}

/// An entry whose owner and group are unknown still has a detailed row,
/// with blank owner and group columns.
pub proof fn lemma_unknown_ids_blank(e: DirEntryInfo, time: Seq<char>)
    requires
        e.owner is None,
        e.group is None,
    ensures
        long_row_text(e, time).subrange(11, 28) == Seq::new(17, |i: int| ' '),
{
    let spaces = Seq::new(8, |i: int| ' ');
    assert(pad_to(Seq::empty(), 8) =~= spaces);
    assert(permission_string(e.mode).len() == 9);
    let head = pad_to(permission_string(e.mode), 10) + seq![' '];
    assert(head.len() == 11);
    let row = long_row_text(e, time);
    assert(row.subrange(11, 28) =~= Seq::new(17, |i: int| ' ')) by {
        assert forall|k: int| 11 <= k < 28 implies row[k] == ' ' by {
            let full = head + spaces + seq![' '] + spaces;
            assert(full.len() == 28);
            assert(row.subrange(0, 28) =~= full) by {
                let tail = seq![' '] + pad_to(size_string(e.size as nat), 10) + seq![' '] + pad_to(time, 15)
                    + seq![' '] + long_name(e);
                assert(row =~= full + tail);
            }
            assert(row.subrange(0, 28)[k] == row[k]);
        }
    }
}

/// Whether `name` starts with `.`.
pub fn is_hidden(name: &str) -> (r: bool)
    ensures
        r == is_hidden_name(name@),
{
    name.unicode_len() > 0 && name.get_char(0) == '.'
}

/// Whether an entry named `name` is listed: always with `all`, otherwise
/// when the name does not start with `.`.
pub fn is_listed(name: &str, all: bool) -> (r: bool)
    ensures
        r == (all || !is_hidden_name(name@)),
{
    all || !is_hidden(name)
}

/// Keeps the entries that are listed, in their order: all of them with
/// `all`, otherwise those whose name does not start with `.`.
pub fn filter_entries(entries: Vec<DirEntryInfo>, all: bool) -> (r: Vec<DirEntryInfo>)
    ensures
        r@ == visible_entries(entries@, all),
{
    let mut rest = entries;
    let mut out: Vec<DirEntryInfo> = Vec::new();
    while rest.len() > 0
        invariant
            visible_entries(entries@, all) == out@ + visible_entries(rest@, all),
        decreases rest.len(),
    {
        let ghost before = rest@;
        let ghost out_before = out@;
        let e = rest.remove(0);
        assert(before.drop_first() =~= rest@);
        if is_listed(e.name.as_str(), all) {
            out.push(e);
            assert(out_before + visible_entries(before, all) =~= out@ + visible_entries(rest@, all));
        }
    }
    assert(out@ + visible_entries(rest@, all) =~= out@);
    out
}

/// The compact form of one entry's name.
pub fn format_compact_token(e: &DirEntryInfo) -> (r: String)
    ensures
        r@ == compact_token(*e),
{
    if e.is_dir {
        let b = bold(e.name.as_str());
        colorize_string(b.as_str(), BLUE)
    } else {
        String::from_str(e.name.as_str())
    }
}

/// The compact listing line: every entry's token followed by two spaces,
/// in the order given.
pub fn format_compact(entries: &Vec<DirEntryInfo>) -> (r: String)
    ensures
        r@ == compact_line(entries@),
{
    let mut r = String::new();
    let mut i: usize = 0;
    while i < entries.len()
        invariant
            i <= entries@.len(),
            r@ == compact_line(entries@.subrange(0, i as int)),
        decreases entries@.len() - i,
    {
        let token = format_compact_token(&entries[i]);
        r.append(token.as_str());
        r.append("  ");
        proof {
            reveal_strlit("  ");
            let next = entries@.subrange(0, i + 1);
            assert(next.drop_last() =~= entries@.subrange(0, i as int));
            assert(r@ =~= compact_line(next));
        }
        i = i + 1;
    }
    assert(entries@.subrange(0, i as int) =~= entries@);
    r
}

/// `name`, or the empty string when it is unknown, padded to `width`.
fn pad_name(name: &Option<String>, width: usize) -> (r: String)
    ensures
        r@ == pad_to(name_or_empty(*name), width as nat),
{
    match name {
        Some(s) => pad_right(s.as_str(), width),
        None => {
            let empty = String::new();
            pad_right(empty.as_str(), width)
        },
    }
}

/// The detailed row of `e`, given the text of its modification time:
/// permissions, owner, group, size and time, each padded to its column
/// width and followed by a space, then the name, blue for a directory.
pub fn format_long_row(e: &DirEntryInfo, time: &str) -> (r: String)
    ensures
        r@ == long_row_text(*e, time@),
{
    let perms = format_permissions(e.mode);
    let mut r = pad_right(perms.as_str(), 10);
    r.append(" ");
    let owner = pad_name(&e.owner, 8);
    r.append(owner.as_str());
    r.append(" ");
    let group = pad_name(&e.group, 8);
    r.append(group.as_str());
    r.append(" ");
    let size = format_size(e.size);
    let size_col = pad_right(size.as_str(), 10);
    r.append(size_col.as_str());
    r.append(" ");
    let time_col = pad_right(time, 15);
    r.append(time_col.as_str());
    r.append(" ");
    if e.is_dir {
        let name = colorize_string(e.name.as_str(), BLUE);
        r.append(name.as_str());
    } else {
        r.append(e.name.as_str());
    }
    proof {
        reveal_strlit(" ");
    }
    assert(r@ =~= long_row_text(*e, time@));
    r
}

/// The detailed row of `e`, with its modification time shown as local
/// wall-clock time. Fails only when that time cannot be turned into a date,
/// which never happens within `TIME_LIMIT` of the epoch; an unknown owner or
/// group is shown blank.
pub fn long_row(e: &DirEntryInfo) -> (r: Result<String, ListError>)
    ensures
        match r {
            Ok(row) => is_row_of(row@, *e),
            Err(err) => err is TimestampConversionFailure && !time_in_range(e.modified),
        },
        time_in_range(e.modified) ==> r is Ok,
{
    match local_time_stamp(e.modified) {
        Some(t) => Ok(format_long_row(e, t.as_str())),
        None => Err(ListError::TimestampConversionFailure),
    }
}

/// Every entry of `s` has its modification time within `TIME_LIMIT`.
pub open spec fn all_times_in_range(s: Seq<DirEntryInfo>) -> bool {
    forall|i: int| 0 <= i < s.len() ==> time_in_range(#[trigger] s[i].modified)
}

/// `l` is the detailed listing of `s`, made in order up to the first entry
/// whose row failed: its lines are the rows of the entries before that one,
/// and its error says why that entry failed. With no error, every entry has
/// its row.
pub open spec fn is_long_listing_of(l: Listing, s: Seq<DirEntryInfo>) -> bool {
    let n = l.lines@.len();
    &&& n <= s.len()
    &&& are_rows_of(l.lines@, s.subrange(0, n as int))
    &&& match l.error {
        None => n == s.len(),
        Some(err) => err is TimestampConversionFailure && n < s.len() && !time_in_range(
            s[n as int].modified,
        ),
    }
}

/// The detailed rows of `entries`, one for each, in their order. On a
/// failure the rows made before it are kept, and the error is returned
/// beside them.
pub fn long_rows(entries: &Vec<DirEntryInfo>) -> (r: Listing)
    ensures
        is_long_listing_of(r, entries@),
        all_times_in_range(entries@) ==> r.error is None,
{
    let mut rows: Vec<String> = Vec::new();
    let mut i: usize = 0;
    while i < entries.len()
        invariant
            i <= entries@.len(),
            rows@.len() == i,
            are_rows_of(rows@, entries@.subrange(0, i as int)),
        decreases entries@.len() - i,
    {
        match long_row(&entries[i]) {
            Ok(row) => {
                let ghost before = rows@;
                rows.push(row);
                assert(forall|k: int| 0 <= k < i ==> rows@[k] == before[k]);
                assert(are_rows_of(rows@, entries@.subrange(0, i + 1)));
            },
            Err(err) => {
                return Listing { lines: rows, error: Some(err) };
            },
        }
        i = i + 1;
    }
    assert(entries@.subrange(0, i as int) =~= entries@);
    Listing { lines: rows, error: None }
}

/// The lines a listing prints, and the error that cut it short, if any. The
/// entries kept are those that `filter_entries` keeps. In detailed form there
/// is one row for each of them, in their order, up to the first that fails;
/// otherwise one compact line, which never fails.
pub fn render_listing(entries: Vec<DirEntryInfo>, all: bool, long: bool) -> (r: Listing)
    ensures
        !long ==> r.error is None && r.lines@.len() == 1 && r.lines@[0]@ == compact_line(
            visible_entries(entries@, all),
        ),
        long ==> is_long_listing_of(r, visible_entries(entries@, all)),
        long && all_times_in_range(visible_entries(entries@, all)) ==> r.error is None,
{
    let shown = filter_entries(entries, all);
    if long {
        long_rows(&shown)
    } else {
        let line = format_compact(&shown);
        let mut lines: Vec<String> = Vec::new();
        lines.push(line);
        Listing { lines, error: None }
    }
}

} // verus!
