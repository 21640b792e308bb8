use cdls::entry::{classify, kind_label, Entry, EntryKind, RawStat};
use cdls::numfmt::{u64_string, u64_string_pad2, year_string};
use cdls::perm::{perm_mode, perm_string};
use cdls::render::{
    config_footer_line, column_config_lines, footer_line, header_line, marker_line,
    metadata_strings, pad_right, row_string, sort_config_lines,
};
use cdls::timefmt::{format_civil, mtime_display};
use cdls::nav::ViewConfig;
use cdls::project::SortKey;
use chrono::{Datelike, Timelike};

fn raw_file(size: u64, mtime: i64, mode: u32) -> RawStat {
    RawStat {
        stat_ok: true,
        is_dir: false,
        is_symlink: false,
        is_socket: false,
        is_fifo: false,
        is_block_device: false,
        is_char_device: false,
        is_file: true,
        mode,
        size,
        mtime_ok: true,
        mtime,
        target_is_dir: false,
        symlink_target: String::new(),
    }
}

#[test]
fn perm_string_examples() {
    assert_eq!(perm_string(0o755), "rwxr-xr-x");
    assert_eq!(perm_string(0o644), "rw-r--r--");
    assert_eq!(perm_string(0o000), "---------");
    assert_eq!(perm_string(0o777), "rwxrwxrwx");
    assert_eq!(perm_string(0o521), "r-x-w---x");
}

#[test]
fn perm_round_trip_all_nine_bit_modes() {
    for mode in 0u32..512 {
        assert_eq!(perm_mode(&perm_string(mode)), mode);
    }
}

#[test]
fn perm_round_trip_ignores_high_bits() {
    for mode in [0o100644u32, 0o40755, 0o120777] {
        assert_eq!(perm_mode(&perm_string(mode)), mode & 0o777);
    }
}

#[test]
fn u64_string_examples() {
    assert_eq!(u64_string(0), "0");
    assert_eq!(u64_string(7), "7");
    assert_eq!(u64_string(42), "42");
    assert_eq!(u64_string(1234567890), "1234567890");
    assert_eq!(u64_string(u64::MAX), format!("{}", u64::MAX));
}

#[test]
fn pad2_examples() {
    assert_eq!(u64_string_pad2(0), "00");
    assert_eq!(u64_string_pad2(9), "09");
    assert_eq!(u64_string_pad2(10), "10");
    assert_eq!(u64_string_pad2(123), "123");
}

#[test]
fn year_string_examples() {
    assert_eq!(year_string(2024), "2024");
    assert_eq!(year_string(5), "0005");
    assert_eq!(year_string(0), "0000");
    assert_eq!(year_string(-1), "-0001");
    assert_eq!(year_string(262142), "262142");
}

#[test]
fn format_civil_examples() {
    assert_eq!(format_civil(2015, 5, 15, 0, 0, 0), "2015-05-15 00:00:00");
    assert_eq!(format_civil(1999, 12, 31, 23, 59, 59), "1999-12-31 23:59:59");
    assert_eq!(format_civil(5, 1, 2, 3, 4, 5), "0005-01-02 03:04:05");
}

#[test]
fn mtime_display_matches_chrono_local() {
    for t in [0i64, 1431648000, 1700000000, 86399, -1] {
        let expected = chrono::DateTime::from_timestamp(t, 0)
            .unwrap()
            .with_timezone(&chrono::Local);
        let expected = format!(
            "{:04}-{:02}-{:02} {:02}:{:02}:{:02}",
            expected.year(),
            expected.month(),
            expected.day(),
            expected.hour(),
            expected.minute(),
            expected.second()
        );
        assert_eq!(mtime_display(true, t), expected);
    }
}

#[test]
fn mtime_display_unknown_when_unreadable() {
    assert_eq!(mtime_display(false, 1431648000), "UNKNOWN");
}

#[test]
fn mtime_display_formats_the_whole_calendar_range() {
    // Hundreds of millennia either side of the epoch still format.
    let far_future = mtime_display(true, 8_000_000_000_000);
    assert_ne!(far_future, "UNKNOWN");
    assert!(far_future.len() >= 19);
    let far_past = mtime_display(true, -8_000_000_000_000);
    assert_ne!(far_past, "UNKNOWN");
    assert!(far_past.len() >= 19);
    // Beyond the calendar's range the column degrades.
    assert_eq!(mtime_display(true, 9_300_000_000_000), "UNKNOWN");
    assert_eq!(mtime_display(true, i64::MAX), "UNKNOWN");
    assert_eq!(mtime_display(true, i64::MIN), "UNKNOWN");
}

#[test]
fn help_text_lists_usage_and_key_bindings() {
    let text = cdls::render::help_text();
    assert!(text.starts_with("Usage: cdls [OPTION]\n"));
    assert!(text.contains("\t-h, --help\t\t\tHelp message"));
    assert!(text.contains("\tLeft arrow\t\tGo to parent directory"));
    assert!(text.contains("2. Enter button\t\t\tExit cdls and jump to current directory"));
    assert!(text.contains("\tc\t\t\tColumn Display"));
    assert!(text.contains("\ts\t\t\tSort by"));
    assert!(text.contains("\tf\t\t\tStart search mode"));
    assert!(text.contains("use `enter` to exit search mode"));
}

#[test]
fn pad_right_examples() {
    assert_eq!(pad_right("DIR", 8), "DIR     ");
    assert_eq!(pad_right("NO-PERMISSION", 8), "NO-PERMISSION");
    assert_eq!(pad_right("", 3), "   ");
}

#[test]
fn row_string_all_columns() {
    let cfg = ViewConfig::new();
    let row = row_string(&cfg, "FILE", "rw-r--r--", "120", "a.txt", "2015-05-15 00:00:00");
    let expected = format!(
        "{:<8}{:<16}{:<16}{:<24}{}\n",
        "FILE", "rw-r--r--", "120", "2015-05-15 00:00:00", "a.txt"
    );
    assert_eq!(row, expected);
}

#[test]
fn row_string_hidden_columns() {
    let mut cfg = ViewConfig::new();
    cfg.show_permission = false;
    cfg.show_mtime = false;
    let row = row_string(&cfg, "FILE", "rw-r--r--", "120", "a.txt", "whenever");
    let expected = format!("{:<8}{:<16}{}\n", "FILE", "120", "a.txt");
    assert_eq!(row, expected);
    cfg.show_item_type = false;
    cfg.show_size = false;
    assert_eq!(row_string(&cfg, "FILE", "x", "y", "a.txt", "z"), "a.txt\n");
}

#[test]
fn metadata_strings_unknown_on_failed_stat() {
    let mut raw = raw_file(1, 1, 0o644);
    raw.stat_ok = false;
    let e = Entry::new("/d", String::from("a"), raw);
    let (perm, size, mtime) = metadata_strings(&e);
    assert_eq!(perm, "UNKNOWN");
    assert_eq!(size, "UNKNOWN");
    assert_eq!(mtime, "UNKNOWN");
}

#[test]
fn metadata_strings_readable_entry() {
    let e = Entry::new("/d", String::from("a"), raw_file(120, 0, 0o644));
    let (perm, size, _mtime) = metadata_strings(&e);
    assert_eq!(perm, "rw-r--r--");
    assert_eq!(size, "120");
}

#[test]
fn kind_labels() {
    assert_eq!(kind_label(EntryKind::Directory), "DIR");
    assert_eq!(kind_label(EntryKind::File), "FILE");
    assert_eq!(kind_label(EntryKind::Symlink), "SYMLINK");
    assert_eq!(kind_label(EntryKind::Fd), "FD");
    assert_eq!(kind_label(EntryKind::Device), "DEV");
    assert_eq!(kind_label(EntryKind::Unknown), "UNKNOWN");
    assert_eq!(kind_label(EntryKind::NoPermission), "NO-PERMISSION");
}

#[test]
fn classify_priorities() {
    let mut raw = raw_file(0, 0, 0);
    raw.stat_ok = false;
    assert_eq!(classify(&raw), EntryKind::NoPermission);
    let mut raw = raw_file(0, 0, 0);
    raw.is_dir = true;
    raw.is_file = true;
    assert_eq!(classify(&raw), EntryKind::Directory);
    let mut raw = raw_file(0, 0, 0);
    raw.is_symlink = true;
    raw.target_is_dir = true;
    assert_eq!(classify(&raw), EntryKind::Symlink);
    let mut raw = raw_file(0, 0, 0);
    raw.is_file = false;
    raw.is_fifo = true;
    assert_eq!(classify(&raw), EntryKind::Fd);
    let mut raw = raw_file(0, 0, 0);
    raw.is_file = false;
    raw.is_char_device = true;
    assert_eq!(classify(&raw), EntryKind::Device);
    assert_eq!(classify(&raw_file(0, 0, 0)), EntryKind::File);
    let mut raw = raw_file(0, 0, 0);
    raw.is_file = false;
    assert_eq!(classify(&raw), EntryKind::Unknown);
}

#[test]
fn header_and_footer_lines() {
    assert_eq!(header_line("/tmp"), "CDLS # /tmp\n");
    let mut cfg = ViewConfig::new();
    assert_eq!(
        footer_line(&cfg),
        "Arrow Keys: Select item; Enter: Quit cdls and jump to selected item; h: More help"
    );
    cfg.search_mode = true;
    cfg.search_string = String::from("bt");
    assert_eq!(footer_line(&cfg), "Search string:bt \tEnter: Exit search mode");
    assert_eq!(config_footer_line(), "Space: Toggle Selection; q: Save and Quit");
    assert_eq!(marker_line(), "\t...\n");
}

#[test]
fn column_config_screen_rows() {
    let mut cfg = ViewConfig::new();
    cfg.show_size = false;
    let lines = column_config_lines(&cfg);
    assert_eq!(
        lines,
        vec![
            "Please Select Columns to Display\n",
            "* Item Type\n",
            "* Permission\n",
            "  Size\n",
            "* Modification Time\n",
        ]
    );
}

#[test]
fn sort_config_screen_rows() {
    let mut cfg = ViewConfig::new();
    cfg.sort_key = SortKey::Size;
    let lines = sort_config_lines(&cfg);
    assert_eq!(
        lines,
        vec![
            "Sort the items by:\n",
            "  File Name\n",
            "  Item Type\n",
            "* Size\n",
            "  Modification Time\n",
        ]
    );
}
