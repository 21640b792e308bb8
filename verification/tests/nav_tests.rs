use cdls::entry::{join_path, parent_path, Entry, EntryKind, RawStat};
use cdls::keys::{decode_printable, key_to_char, key_to_u8, within_u8_range};
use cdls::nav::{next_key, prev_key, step, Key, Mode, NavState, Outcome};
use cdls::project::SortKey;
use cdls::render::browse_lines;

fn raw(kind: EntryKind) -> RawStat {
    RawStat {
        stat_ok: kind != EntryKind::NoPermission,
        is_dir: kind == EntryKind::Directory,
        is_symlink: kind == EntryKind::Symlink,
        is_socket: false,
        is_fifo: false,
        is_block_device: false,
        is_char_device: false,
        is_file: kind == EntryKind::File,
        mode: 0o644,
        size: 0,
        mtime_ok: true,
        mtime: 0,
        target_is_dir: kind == EntryKind::Directory,
        symlink_target: String::new(),
    }
}

fn listing() -> Vec<Entry> {
    vec![
        Entry::new("/top", String::from("docs"), raw(EntryKind::Directory)),
        Entry::new("/top", String::from("notes.txt"), raw(EntryKind::File)),
    ]
}

fn browse_state(dir: &str) -> NavState {
    NavState::new(String::from(dir))
}

#[test]
fn join_and_parent_paths() {
    assert_eq!(join_path("/", "a"), "/a");
    assert_eq!(join_path("/a", "b"), "/a/b");
    assert_eq!(parent_path("/"), "/");
    assert_eq!(parent_path("/a"), "/");
    assert_eq!(parent_path("/a/b"), "/a");
    assert_eq!(parent_path("plain"), "plain");
}

#[test]
fn left_at_root_is_a_no_op() {
    let mut s = browse_state("/");
    let children = listing();
    let r = step(&mut s, Key::Left, &children, 0);
    assert!(matches!(r, Outcome::Continue));
    assert_eq!(s.pos.cur_dir, "/");
    assert_eq!(s.pos.cur_item, "/");
    assert!(matches!(s.mode, Mode::Browse));
}

#[test]
fn left_ascends_to_parent() {
    let mut s = browse_state("/top/docs");
    let r = step(&mut s, Key::Left, &Vec::new(), 0);
    assert!(matches!(r, Outcome::Continue));
    assert_eq!(s.pos.cur_dir, "/top");
    assert_eq!(s.pos.cur_item, "/top");
}

#[test]
fn up_and_down_move_selection_within_bounds() {
    let mut s = browse_state("/top");
    let children = listing();
    step(&mut s, Key::Down, &children, 0);
    assert_eq!(s.pos.cur_item, "/top/notes.txt");
    step(&mut s, Key::Down, &children, 1);
    assert_eq!(s.pos.cur_item, "/top/notes.txt");
    step(&mut s, Key::Up, &children, 1);
    assert_eq!(s.pos.cur_item, "/top/docs");
    step(&mut s, Key::Up, &children, 0);
    assert_eq!(s.pos.cur_item, "/top/docs");
}

#[test]
fn right_descends_only_into_directories() {
    let mut s = browse_state("/top");
    let children = listing();
    step(&mut s, Key::Right, &children, 1);
    assert_eq!(s.pos.cur_dir, "/top");
    step(&mut s, Key::Right, &children, 0);
    assert_eq!(s.pos.cur_dir, "/top/docs");
    assert_eq!(s.pos.cur_item, "/top/docs");
}

#[test]
fn enter_on_directory_hands_off_that_directory() {
    let mut s = browse_state("/top");
    let children = listing();
    let r = step(&mut s, Key::Enter, &children, 0);
    match r {
        Outcome::HandOff(d) => assert_eq!(d, "/top/docs"),
        _ => panic!("expected a hand-off"),
    }
}

#[test]
fn enter_on_file_hands_off_its_parent() {
    let mut s = browse_state("/top");
    let children = listing();
    let r = step(&mut s, Key::Enter, &children, 1);
    match r {
        Outcome::HandOff(d) => assert_eq!(d, "/top"),
        _ => panic!("expected a hand-off"),
    }
}

#[test]
fn enter_on_empty_listing_hands_off_current_directory() {
    let mut s = browse_state("/top");
    let r = step(&mut s, Key::Enter, &Vec::new(), 0);
    match r {
        Outcome::HandOff(d) => assert_eq!(d, "/top"),
        _ => panic!("expected a hand-off"),
    }
}

#[test]
fn quit_key_quits() {
    let mut s = browse_state("/top");
    let r = step(&mut s, Key::Char('q'), &Vec::new(), 0);
    assert!(matches!(r, Outcome::Quit));
}

#[test]
fn mode_entry_keys() {
    let mut s = browse_state("/top");
    step(&mut s, Key::Char('c'), &Vec::new(), 0);
    assert!(matches!(s.mode, Mode::ColumnConfig { row: 0 }));
    let mut s = browse_state("/top");
    s.cfg.sort_key = SortKey::Size;
    step(&mut s, Key::Char('s'), &Vec::new(), 0);
    assert!(matches!(s.mode, Mode::SortConfig { selected: SortKey::Size }));
    let mut s = browse_state("/top");
    step(&mut s, Key::Char('h'), &Vec::new(), 0);
    assert!(matches!(s.mode, Mode::Help));
    step(&mut s, Key::Other, &Vec::new(), 0);
    assert!(matches!(s.mode, Mode::Browse));
    let mut s = browse_state("/top");
    step(&mut s, Key::Char('f'), &Vec::new(), 0);
    assert!(matches!(s.mode, Mode::Search));
    assert!(s.cfg.search_mode);
}

#[test]
fn unbound_keys_are_ignored_in_browse() {
    let mut s = browse_state("/top");
    let r = step(&mut s, Key::Char('z'), &listing(), 0);
    assert!(matches!(r, Outcome::Continue));
    assert!(matches!(s.mode, Mode::Browse));
    assert_eq!(s.pos.cur_dir, "/top");
    let r = step(&mut s, Key::Backspace, &listing(), 0);
    assert!(matches!(r, Outcome::Continue));
    assert!(matches!(s.mode, Mode::Browse));
}

#[test]
fn column_config_cursor_and_toggles() {
    let mut s = browse_state("/top");
    step(&mut s, Key::Char('c'), &Vec::new(), 0);
    step(&mut s, Key::Up, &Vec::new(), 0);
    assert!(matches!(s.mode, Mode::ColumnConfig { row: 0 }));
    step(&mut s, Key::Down, &Vec::new(), 0);
    step(&mut s, Key::Down, &Vec::new(), 0);
    assert!(matches!(s.mode, Mode::ColumnConfig { row: 2 }));
    step(&mut s, Key::Char(' '), &Vec::new(), 0);
    assert!(!s.cfg.show_size);
    step(&mut s, Key::Char(' '), &Vec::new(), 0);
    assert!(s.cfg.show_size);
    step(&mut s, Key::Down, &Vec::new(), 0);
    step(&mut s, Key::Down, &Vec::new(), 0);
    assert!(matches!(s.mode, Mode::ColumnConfig { row: 3 }));
    step(&mut s, Key::Char(' '), &Vec::new(), 0);
    assert!(!s.cfg.show_mtime);
    step(&mut s, Key::Char('q'), &Vec::new(), 0);
    assert!(matches!(s.mode, Mode::Browse));
}

#[test]
fn sort_config_commits_only_on_space() {
    let mut s = browse_state("/top");
    step(&mut s, Key::Char('s'), &Vec::new(), 0);
    step(&mut s, Key::Down, &Vec::new(), 0);
    step(&mut s, Key::Down, &Vec::new(), 0);
    assert!(matches!(s.mode, Mode::SortConfig { selected: SortKey::Size }));
    assert_eq!(s.cfg.sort_key, SortKey::Filename);
    step(&mut s, Key::Char(' '), &Vec::new(), 0);
    assert_eq!(s.cfg.sort_key, SortKey::Size);
    step(&mut s, Key::Char('q'), &Vec::new(), 0);
    assert!(matches!(s.mode, Mode::Browse));
    assert_eq!(s.cfg.sort_key, SortKey::Size);
}

#[test]
fn sort_config_cursor_stops_at_ends() {
    assert_eq!(prev_key(SortKey::Filename), SortKey::Filename);
    assert_eq!(prev_key(SortKey::ModifiedTime), SortKey::Size);
    assert_eq!(next_key(SortKey::ModifiedTime), SortKey::ModifiedTime);
    assert_eq!(next_key(SortKey::Filename), SortKey::ItemType);
}

#[test]
fn search_edits_query_and_resets_selection() {
    let mut s = browse_state("/top");
    let children = listing();
    step(&mut s, Key::Char('f'), &children, 0);
    step(&mut s, Key::Down, &children, 0);
    assert_eq!(s.pos.cur_item, "/top/notes.txt");
    step(&mut s, Key::Char('b'), &children, 1);
    assert_eq!(s.cfg.search_string, "b");
    assert_eq!(s.pos.cur_item, "/top");
    step(&mut s, Key::Char('t'), &children, 0);
    assert_eq!(s.cfg.search_string, "bt");
    step(&mut s, Key::Backspace, &children, 0);
    assert_eq!(s.cfg.search_string, "b");
    step(&mut s, Key::Backspace, &children, 0);
    step(&mut s, Key::Backspace, &children, 0);
    assert_eq!(s.cfg.search_string, "");
    step(&mut s, Key::Char('q'), &children, 0);
    assert_eq!(s.cfg.search_string, "q");
    step(&mut s, Key::Enter, &children, 0);
    assert!(matches!(s.mode, Mode::Browse));
    assert!(!s.cfg.search_mode);
    assert_eq!(s.cfg.search_string, "");
}

#[test]
fn sort_key_positions_and_labels() {
    assert_eq!(SortKey::Filename.to_usize(), 0);
    assert_eq!(SortKey::ItemType.to_usize(), 1);
    assert_eq!(SortKey::Size.to_usize(), 2);
    assert_eq!(SortKey::ModifiedTime.to_usize(), 3);
    assert_eq!(SortKey::Filename.label(), "File Name");
    assert_eq!(SortKey::ModifiedTime.label(), "Modification Time");
}

#[test]
fn key_code_helpers_clamp() {
    assert!(within_u8_range(0) && within_u8_range(255));
    assert!(!within_u8_range(-1) && !within_u8_range(256));
    assert_eq!(key_to_u8(-5), 0);
    assert_eq!(key_to_u8(300), 255);
    assert_eq!(key_to_u8(65), 65);
    assert_eq!(key_to_char(97), 'a');
    assert_eq!(key_to_char(-5), '\0');
}

#[test]
fn decode_printable_matches_ascii_rules() {
    assert_eq!(decode_printable(97), Some('a'));
    assert_eq!(decode_printable(32), Some(' '));
    assert_eq!(decode_printable(126), Some('~'));
    assert_eq!(decode_printable(10), None);
    assert_eq!(decode_printable(127), None);
    assert_eq!(decode_printable(8), None);
    assert_eq!(decode_printable(-1), None);
    assert_eq!(decode_printable(0o402), None);
    for b in 0..=255 {
        let got = decode_printable(b).is_some();
        assert_eq!(got, encoding8::ascii::is_printable(b as u8), "code {}", b);
    }
}

#[test]
fn browse_screen_layout() {
    let children = listing();
    let lines = browse_lines("/top", &children, &browse_state("/top").cfg, 0, 10);
    assert_eq!(lines.len(), 3);
    assert_eq!(lines[0], "CDLS # /top\n");
    assert!(lines[1].starts_with(">>>>\t"));
    assert!(lines[1].ends_with("docs\n"));
    assert!(lines[2].starts_with("    \t"));
    assert!(lines[2].ends_with("notes.txt\n"));
}

#[test]
fn browse_screen_truncation_markers() {
    let mut children = Vec::new();
    for i in 0..30 {
        children.push(Entry::new(
            "/top",
            format!("f{:02}", i),
            raw(EntryKind::File),
        ));
    }
    let cfg = browse_state("/top").cfg;
    // Cursor deep in the list: marker above, none below once the tail fits.
    let lines = browse_lines("/top", &children, &cfg, 29, 10);
    // header + 7 entry-area rows (first replaced by the top marker)
    assert_eq!(lines.len(), 8);
    assert_eq!(lines[1], "\t...\n");
    assert!(lines[7].starts_with(">>>>\t"));
    // Cursor at the top: no marker above, one below.
    let lines = browse_lines("/top", &children, &cfg, 0, 10);
    assert_eq!(lines.len(), 9);
    assert!(lines[1].starts_with(">>>>\t"));
    assert_eq!(lines[8], "\t...\n");
    // Symlink rows show their target.
    let mut link = raw(EntryKind::Symlink);
    link.symlink_target = String::from("/elsewhere");
    let children = vec![Entry::new("/top", String::from("ln"), link)];
    let lines = browse_lines("/top", &children, &cfg, 0, 10);
    assert!(lines[1].ends_with("ln -> /elsewhere\n"));
}
