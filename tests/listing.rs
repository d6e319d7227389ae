use lsr::{
    bold, colorize_string, decimal, filter_entries, format_compact, format_long_row,
    format_permissions, format_size, is_hidden, is_listed, long_row, long_rows, pad_right,
    render_listing, DirEntryInfo, ListError, BLUE, BOLD, RESET, TIME_LIMIT,
};

fn entry(name: &str, is_dir: bool, mode: u32, size: u64) -> DirEntryInfo {
    DirEntryInfo {
        name: name.to_string(),
        is_dir,
        mode,
        owner: Some("alice".to_string()),
        group: Some("staff".to_string()),
        size,
        modified: 1_700_000_000,
    }
}

fn sample_dir() -> Vec<DirEntryInfo> {
    vec![
        entry(".hidden", false, 0o644, 10),
        entry("docs", true, 0o755, 4096),
        entry("readme.txt", false, 0o644, 2048),
    ]
}

fn names(entries: &[DirEntryInfo]) -> Vec<String> {
    entries.iter().map(|e| e.name.clone()).collect()
}

#[test]
fn size_below_one_kibibyte() {
    assert_eq!(format_size(0), "0 B");
    assert_eq!(format_size(1), "1 B");
    assert_eq!(format_size(1023), "1023 B");
}

#[test]
fn size_in_kibibytes() {
    assert_eq!(format_size(1024), "1.0 KB");
    assert_eq!(format_size(1536), "1.5 KB");
    assert_eq!(format_size(2048), "2.0 KB");
}

#[test]
fn size_larger_units() {
    assert_eq!(format_size(1048576), "1.0 MB");
    assert_eq!(format_size(1 << 30), "1.0 GB");
    assert_eq!(format_size(1 << 40), "1.0 TB");
    assert_eq!(format_size(1 << 50), "1.0 PB");
    assert_eq!(format_size(3 << 29), "1.5 GB");
}

#[test]
fn size_beyond_petabytes_keeps_p() {
    assert_eq!(format_size(1 << 60), "1.0 PB");
    assert_eq!(format_size(u64::MAX), "16.0 PB");
}

#[test]
fn size_rounds_to_nearest_tenth() {
    assert_eq!(format_size(1048575), "1024.0 KB");
    assert_eq!(format_size(1075), "1.0 KB");
    assert_eq!(format_size(1076), "1.1 KB");
    assert_eq!(format_size(1280), "1.2 KB");
    assert_eq!(format_size(1331), "1.3 KB");
}

#[test]
fn permissions_examples() {
    assert_eq!(format_permissions(0o755), "rwxr-xr-x");
    assert_eq!(format_permissions(0o644), "rw-r--r--");
    assert_eq!(format_permissions(0), "---------");
}

#[test]
fn permissions_ignore_type_bits() {
    assert_eq!(format_permissions(0o40755), "rwxr-xr-x");
    assert_eq!(format_permissions(0o100777), "rwxrwxrwx");
    assert_eq!(format_permissions(0o421), "r---w---x");
}

#[test]
fn colorize_and_bold_wrap_exactly() {
    assert_eq!(colorize_string("x", "\x1B[34m"), "\x1B[34mx\x1B[0m");
    assert_eq!(colorize_string("x", BLUE), format!("{}x{}", BLUE, RESET));
    assert_eq!(bold("x"), "\x1B[1mx\x1B[0m");
    assert_eq!(bold("x"), format!("{}x{}", BOLD, RESET));
    assert_eq!(bold(""), "\x1B[1m\x1B[0m");
}

#[test]
fn nested_styles_are_literal() {
    let b = bold("docs");
    assert_eq!(colorize_string(&b, BLUE), "\x1B[34m\x1B[1mdocs\x1B[0m\x1B[0m");
}

#[test]
fn decimal_and_padding() {
    assert_eq!(decimal(0), "0");
    assert_eq!(decimal(907), "907");
    assert_eq!(decimal(u64::MAX), "18446744073709551615");
    assert_eq!(pad_right("ab", 5), "ab   ");
    assert_eq!(pad_right("abcdef", 3), "abcdef");
    assert_eq!(pad_right("", 2), "  ");
}

#[test]
fn hidden_names() {
    assert!(is_hidden(".hidden"));
    assert!(is_hidden("."));
    assert!(!is_hidden("docs"));
    assert!(!is_hidden(""));
    assert!(!is_hidden("a.b"));
}

#[test]
fn filter_drops_hidden_by_default() {
    let kept = filter_entries(sample_dir(), false);
    assert_eq!(names(&kept), vec!["docs", "readme.txt"]);
}

#[test]
fn filter_keeps_all_with_flag() {
    let kept = filter_entries(sample_dir(), true);
    assert_eq!(names(&kept), vec![".hidden", "docs", "readme.txt"]);
}

#[test]
fn filter_of_empty_directory() {
    assert!(filter_entries(Vec::new(), false).is_empty());
    assert!(filter_entries(Vec::new(), true).is_empty());
}

#[test]
fn compact_scenario_default() {
    let listing = render_listing(sample_dir(), false, false);
    assert!(listing.error.is_none());
    let lines = listing.lines;
    assert_eq!(lines.len(), 1);
    assert_eq!(lines[0], "\x1B[34m\x1B[1mdocs\x1B[0m\x1B[0m  readme.txt  ");
}

#[test]
fn compact_scenario_all() {
    let lines = render_listing(sample_dir(), true, false).lines;
    assert_eq!(lines, vec![".hidden  \x1B[34m\x1B[1mdocs\x1B[0m\x1B[0m  readme.txt  "]);
}

#[test]
fn compact_of_nothing_is_empty() {
    assert_eq!(format_compact(&Vec::new()), "");
    let lines = render_listing(vec![entry(".x", false, 0, 0)], false, false).lines;
    assert_eq!(lines, vec![""]);
}

#[test]
fn long_row_columns() {
    let row = format_long_row(&entry("readme.txt", false, 0o644, 2048), "Jan  5 14:32");
    assert_eq!(row, "rw-r--r--  alice    staff    2.0 KB     Jan  5 14:32    readme.txt");
}

#[test]
fn long_row_directory_is_blue_not_bold() {
    let row = format_long_row(&entry("docs", true, 0o755, 4096), "Mar 12 09:05");
    assert_eq!(
        row,
        "rwxr-xr-x  alice    staff    4.0 KB     Mar 12 09:05    \x1B[34mdocs\x1B[0m"
    );
}

#[test]
fn long_row_long_fields_are_not_cut() {
    let mut e = entry("f", false, 0o600, 5);
    e.owner = Some("averylongname".to_string());
    let row = format_long_row(&e, "Jan  5 14:32");
    assert_eq!(row, "rw-------  averylongname staff    5 B        Jan  5 14:32    f");
}

#[test]
fn unknown_owner_and_group_are_blank() {
    let mut e = entry("readme.txt", false, 0o644, 2048);
    e.owner = None;
    e.group = None;
    let row = format_long_row(&e, "Jan  5 14:32");
    assert_eq!(row, "rw-r--r--                    2.0 KB     Jan  5 14:32    readme.txt");
    let row = long_row(&e).unwrap();
    let chars: Vec<char> = row.chars().collect();
    assert!(chars[11..28].iter().all(|c| *c == ' '));
}

#[test]
fn long_row_uses_local_time() {
    let row = long_row(&entry("readme.txt", false, 0o644, 2048)).unwrap();
    let chars: Vec<char> = row.chars().collect();
    assert!(row.starts_with("rw-r--r--  alice    staff    2.0 KB     "));
    assert!(row.ends_with("   readme.txt"));
    assert_eq!(chars[49], ':');
    assert!(chars[40..43].iter().all(|c| c.is_ascii_alphabetic()));
    assert_eq!(chars[52..56].iter().collect::<String>(), "    ");
    assert_eq!(chars.len(), 66);
}

#[test]
fn long_scenario_rows() {
    let listing = render_listing(sample_dir(), false, true);
    assert!(listing.error.is_none());
    let rows = listing.lines;
    assert_eq!(rows.len(), 2);
    assert!(rows[0].starts_with("rwxr-xr-x "));
    assert!(rows[0].ends_with("\x1B[34mdocs\x1B[0m"));
    assert!(rows[1].starts_with("rw-r--r-- "));
    let size_field: String = rows[1].chars().skip(29).take(10).collect();
    assert_eq!(size_field, "2.0 KB    ");
    assert!(rows[1].ends_with(" readme.txt"));
}

#[test]
fn long_rows_count_matches_filter() {
    assert_eq!(render_listing(sample_dir(), true, true).lines.len(), 3);
    assert_eq!(render_listing(sample_dir(), false, true).lines.len(), 2);
    let empty = render_listing(Vec::new(), false, true);
    assert!(empty.lines.is_empty());
    assert!(empty.error.is_none());
}

#[test]
fn out_of_range_time_fails() {
    let mut e = entry("old", false, 0o644, 1);
    e.modified = i64::MAX;
    assert!(matches!(long_row(&e), Err(ListError::TimestampConversionFailure)));
    let r = render_listing(vec![entry("a", false, 0, 0), e], false, true);
    assert!(matches!(r.error, Some(ListError::TimestampConversionFailure)));
}

#[test]
fn out_of_range_time_does_not_touch_compact_form() {
    let mut e = entry("old", false, 0o644, 1);
    e.modified = i64::MIN;
    let listing = render_listing(vec![e], false, false);
    assert!(listing.error.is_none());
    assert_eq!(listing.lines, vec!["old  "]);
}

#[test]
fn rows_before_a_failure_are_kept() {
    let mut bad = entry("bad", false, 0o644, 1);
    bad.modified = i64::MAX;
    let entries = vec![
        entry("a", false, 0o644, 1),
        entry("b", false, 0o644, 2),
        bad,
        entry("c", false, 0o644, 3),
    ];
    let listing = long_rows(&entries);
    assert_eq!(listing.lines.len(), 2);
    assert!(listing.lines[0].ends_with(" a"));
    assert!(listing.lines[1].ends_with(" b"));
    assert!(matches!(listing.error, Some(ListError::TimestampConversionFailure)));
}

#[test]
fn times_at_the_limit_are_shown() {
    let mut e = entry("far", false, 0o644, 1);
    e.modified = TIME_LIMIT;
    assert!(long_row(&e).is_ok());
    e.modified = -TIME_LIMIT;
    assert!(long_row(&e).is_ok());
    let mut early = entry("early", false, 0o644, 1);
    early.modified = -TIME_LIMIT;
    let listing = render_listing(vec![early, e], true, true);
    assert!(listing.error.is_none());
    assert_eq!(listing.lines.len(), 2);
}

#[test]
fn listed_names() {
    assert!(is_listed("docs", false));
    assert!(!is_listed(".hidden", false));
    assert!(is_listed(".hidden", true));
    assert!(is_listed("", false));
}
