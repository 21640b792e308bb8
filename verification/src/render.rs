use vstd::prelude::*;
use crate::entry::{kind_label, spec_kind_label, Entry, EntryKind, EntryView};
use crate::nav::ViewConfig;
use crate::numfmt::{dec_digits, u64_string};
use crate::perm::{perm_string, spec_perm_string};
use crate::project::SortKey;
use crate::timefmt::{mtime_display, spec_civil_form, spec_mtime_form};

verus! {

/// The permission column of an entry: its `rwx` string, or `UNKNOWN` when
/// the stat failed.
pub open spec fn spec_perm_display(e: EntryView) -> Seq<char> {
    if e.stat_ok {
        spec_perm_string(e.mode)
    } else {
        "UNKNOWN"@
    }
}

/// The size column of an entry: its byte count in decimal, or `UNKNOWN`
/// when the stat failed.
pub open spec fn spec_size_display(e: EntryView) -> Seq<char> {
    if e.stat_ok {
        dec_digits(e.size as int)
    } else {
        "UNKNOWN"@
    }
}

/// The name as displayed: symlinks show ` -> ` and their target.
pub open spec fn spec_display_name(e: EntryView) -> Seq<char> {
    if e.kind == EntryKind::Symlink {
        e.name + " -> "@ + e.symlink_target
    } else {
        e.name
    }
}

/// The permission, size and modification-time columns of an entry; all
/// three are `UNKNOWN` when the stat failed.
pub fn metadata_strings(e: &Entry) -> (r: (String, String, String))
    ensures
        r.0@ == spec_perm_display(e@),
        r.1@ == spec_size_display(e@),
        spec_mtime_form(r.2@),
        !e@.stat_ok ==> r.2@ == "UNKNOWN"@,
        e@.stat_ok && !e@.mtime_ok ==> r.2@ == "UNKNOWN"@,
        e@.stat_ok && e@.mtime_ok && -8000000000000 <= e@.mtime <= 8000000000000
            ==> spec_civil_form(r.2@) && r.2@ != "UNKNOWN"@,
{
    if !e.stat_ok {
        ("UNKNOWN".to_owned(), "UNKNOWN".to_owned(), "UNKNOWN".to_owned())
    } else {
        (perm_string(e.mode), u64_string(e.size), mtime_display(e.mtime_ok, e.mtime))
    }
}

/// `s` padded on the right with spaces to width `w` (unchanged when it is
/// already that wide), as `{:<w}` renders it.
pub open spec fn spec_pad_right(s: Seq<char>, w: int) -> Seq<char> {
    if s.len() >= w {
        s
    } else {
        s + Seq::new((w - s.len()) as nat, |i: int| ' ')
    }
}

/// Pad a string on the right with spaces to width `w`.
pub fn pad_right(s: &str, w: usize) -> (r: String)
    ensures
        r@ == spec_pad_right(s@, w as int),
{
    let len = s.unicode_len();
    let mut r = s.to_owned();
    let mut l = len;
    while l < w
        invariant
            len <= l,
            len == s@.len(),
            l <= w || l == len,
            r@ =~= s@ + Seq::new((l - len) as nat, |i: int| ' '),
        decreases w - l,
    {
        r.append(" ");
        proof {
            reveal_strlit(" ");
            assert((s@ + Seq::new((l - len) as nat, |i: int| ' ')).push(' ') =~= s@ + Seq::new(
                (l + 1 - len) as nat,
                |i: int| ' ',
            ));
        }
        l = l + 1;
    }
    proof {
        if len >= w {
            assert(r@ =~= s@);
        }
        assert(r@ =~= spec_pad_right(s@, w as int));
    }
    r
}

/// One entry row: the enabled columns — type padded to 8, permissions to
/// 16, size to 16, modification time to 24 — then the display name and a
/// newline.
pub open spec fn spec_row(
    show_type: bool,
    show_perm: bool,
    show_size: bool,
    show_mtime: bool,
    type_label: Seq<char>,
    perm: Seq<char>,
    size: Seq<char>,
    name: Seq<char>,
    mtime: Seq<char>,
) -> Seq<char> {
    (if show_type {
        spec_pad_right(type_label, 8)
    } else {
        Seq::empty()
    }) + (if show_perm {
        spec_pad_right(perm, 16)
    } else {
        Seq::empty()
    }) + (if show_size {
        spec_pad_right(size, 16)
    } else {
        Seq::empty()
    }) + (if show_mtime {
        spec_pad_right(mtime, 24)
    } else {
        Seq::empty()
    }) + name + "\n"@
}

/// Build one entry row from its column strings, honouring the configured
/// column visibility.
pub fn row_string(
    cfg: &ViewConfig,
    type_label: &str,
    perm: &str,
    size: &str,
    name: &str,
    mtime: &str,
) -> (r: String)
    ensures
        r@ == spec_row(
            cfg.show_item_type,
            cfg.show_permission,
            cfg.show_size,
            cfg.show_mtime,
            type_label@,
            perm@,
            size@,
            name@,
            mtime@,
        ),
{
    let mut r = String::new();
    if cfg.show_item_type {
        r.append(pad_right(type_label, 8).as_str());
    }
    if cfg.show_permission {
        r.append(pad_right(perm, 16).as_str());
    }
    if cfg.show_size {
        r.append(pad_right(size, 16).as_str());
    }
    if cfg.show_mtime {
        r.append(pad_right(mtime, 24).as_str());
    }
    r.append(name);
    r.append("\n");
    proof {
        assert(r@ =~= spec_row(
            cfg.show_item_type,
            cfg.show_permission,
            cfg.show_size,
            cfg.show_mtime,
            type_label@,
            perm@,
            size@,
            name@,
            mtime@,
        ));
    }
    r
}

/// The truncation marker drawn where the listing is cut off.
pub fn marker_line() -> (r: &'static str)
    ensures
        r@ == "\t...\n"@,
{
    "\t...\n"
}

/// The header bar: the browsed directory after the program name.
pub fn header_line(dir: &str) -> (r: String)
    ensures
        r@ == "CDLS # "@ + dir@ + "\n"@,
{
    let mut r = "CDLS # ".to_owned();
    r.append(dir);
    r.append("\n");
    proof {
        assert(r@ =~= "CDLS # "@ + dir@ + "\n"@);
    }
    r
}

/// The footer bar of the browse screen: the live search query while
/// searching, otherwise the key hints.
pub fn footer_line(cfg: &ViewConfig) -> (r: String)
    ensures
        cfg.search_mode ==> r@ == "Search string:"@ + cfg.search_string@
            + " \tEnter: Exit search mode"@,
        !cfg.search_mode ==> r@
            == "Arrow Keys: Select item; Enter: Quit cdls and jump to selected item; h: More help"@,
{
    if cfg.search_mode {
        let mut r = "Search string:".to_owned();
        r.append(cfg.search_string.as_str());
        r.append(" \tEnter: Exit search mode");
        proof {
            assert(r@ =~= "Search string:"@ + cfg.search_string@
                + " \tEnter: Exit search mode"@);
        }
        r
    } else {
        "Arrow Keys: Select item; Enter: Quit cdls and jump to selected item; h: More help".to_owned()
    }
}

/// The footer bar of the configuration screens.
pub fn config_footer_line() -> (r: &'static str)
    ensures
        r@ == "Space: Toggle Selection; q: Save and Quit"@,
{
    "Space: Toggle Selection; q: Save and Quit"
}

/// A configuration row: `* ` before the label when it is on or chosen,
/// two spaces otherwise, then the label and a newline.
pub open spec fn spec_config_row(on: bool, label: Seq<char>) -> Seq<char> {
    (if on {
        "* "@
    } else {
        "  "@
    }) + label + "\n"@
}

fn config_row(on: bool, label: &str) -> (r: String)
    ensures
        r@ == spec_config_row(on, label@),
{
    let mut r = if on {
        "* ".to_owned()
    } else {
        "  ".to_owned()
    };
    r.append(label);
    r.append("\n");
    proof {
        assert(r@ =~= spec_config_row(on, label@));
    }
    r
}

/// What one visible entry row must look like: the selection prefix, then
/// the entry's columns; the modification-time column holds `UNKNOWN` or a
/// formatted local time.
pub open spec fn spec_entry_line(line: Seq<char>, cfg: ViewConfig, e: EntryView, selected: bool) -> bool {
    exists|mt: Seq<char>|
        spec_mtime_form(mt) && line == (if selected {
            ">>>>\t"@
        } else {
            "    \t"@
        }) + spec_row(
            cfg.show_item_type,
            cfg.show_permission,
            cfg.show_size,
            cfg.show_mtime,
            spec_kind_label(e.kind),
            spec_perm_display(e),
            spec_size_display(e),
            spec_display_name(e),
            mt,
        )
}

/// The rows of the browse screen: the header bar, then the visible slice
/// of the projection. When entries are cut off above, a truncation marker
/// stands in place of the window's first row; when entries remain below,
/// a truncation marker follows the last visible row. The selected entry's
/// row carries the `>>>>` prefix.
pub fn browse_lines(
    dir: &str,
    children: &Vec<Entry>,
    cfg: &ViewConfig,
    cursor: usize,
    height: usize,
) -> (lines: Vec<String>)
    requires
        height >= 4,
        cursor < children@.len() || (children@.len() == 0 && cursor == 0),
    ensures
        ({
            let len = children@.len() as int;
            let start = crate::viewport::spec_window_start(cursor as int, height as int);
            let nvis = if len - start < height - 3 {
                len - start
            } else {
                height - 3
            };
            let bot = len > start + height - 3;
            &&& lines@.len() == 1 + nvis + (if bot {
                1int
            } else {
                0int
            })
            &&& lines@[0]@ == "CDLS # "@ + dir@ + "\n"@
            &&& (start > 0 ==> lines@[1]@ == "\t...\n"@)
            &&& forall|i: int|
                #![trigger lines@[1 + i]]
                (if start > 0 {
                    1int
                } else {
                    0int
                }) <= i < nvis ==> spec_entry_line(
                    lines@[1 + i]@,
                    *cfg,
                    children@[start + i]@,
                    start + i == cursor,
                )
            &&& (bot ==> lines@[1 + nvis]@ == "\t...\n"@)
        }),
{
    let len = children.len();
    let w = crate::viewport::window(cursor, len, height);
    let ghost start = w.start as int;
    let mut lines: Vec<String> = Vec::new();
    lines.push(header_line(dir));
    let mut idx = w.start;
    if w.truncated_top {
        lines.push(marker_line().to_owned());
        idx = idx + 1;
    }
    while idx < len && idx - w.start < height - 3
        invariant
            height >= 4,
            len == children@.len(),
            start == w.start as int,
            w.start <= cursor,
            start > 0 ==> start + 1 <= idx,
            start <= idx <= len,
            idx - start <= height - 3,
            lines@.len() == 1 + (idx - start),
            lines@[0]@ == "CDLS # "@ + dir@ + "\n"@,
            start > 0 ==> lines@[1]@ == "\t...\n"@,
            forall|i: int|
                #![trigger lines@[1 + i]]
                (if start > 0 {
                    1int
                } else {
                    0int
                }) <= i < idx - start ==> spec_entry_line(
                    lines@[1 + i]@,
                    *cfg,
                    children@[start + i]@,
                    start + i == cursor,
                ),
        decreases len - idx,
    {
        let e = &children[idx];
        let meta = metadata_strings(e);
        let label = kind_label(e.kind);
        let mut nm = e.name.clone();
        if matches!(e.kind, EntryKind::Symlink) {
            nm.append(" -> ");
            nm.append(e.symlink_target.as_str());
            proof {
                assert(nm@ =~= spec_display_name(e@));
            }
        }
        let row = row_string(cfg, label, meta.0.as_str(), meta.1.as_str(), nm.as_str(), meta.2.as_str());
        let mut line = if idx == cursor {
            ">>>>\t".to_owned()
        } else {
            "    \t".to_owned()
        };
        line.append(row.as_str());
        proof {
            let mt = meta.2@;
            assert(spec_mtime_form(mt));
            assert(line@ == (if idx == cursor {
                ">>>>\t"@
            } else {
                "    \t"@
            }) + spec_row(
                cfg.show_item_type,
                cfg.show_permission,
                cfg.show_size,
                cfg.show_mtime,
                spec_kind_label(e@.kind),
                spec_perm_display(e@),
                spec_size_display(e@),
                spec_display_name(e@),
                mt,
            ));
            assert(spec_entry_line(line@, *cfg, e@, idx == cursor));
        }
        lines.push(line);
        idx = idx + 1;
    }
    if w.truncated_bottom {
        lines.push(marker_line().to_owned());
    }
    lines
}

/// The text of the help screen and of command-line usage: the options,
/// the key bindings, and the two configuration screens.
pub fn help_text() -> (r: &'static str)
    ensures
        r@ == "Usage: cdls [OPTION]\n
Options:
\t-h, --help\t\t\tHelp message\n
Operations in cdls screen:
1. Use arrow button to navigate in directory
\tLeft arrow\t\tGo to parent directory
\tRight arrow\t\tGo to child directory
\tUp arrow\t\tGo to previous item
\tDown arrow\t\tGo to next item
2. Enter button\t\t\tExit cdls and jump to current directory
3. Configuration Screen
\tc\t\t\tColumn Display
\ts\t\t\tSort by
\tIn configuration screen, use `arrow buttons` to navigate in configuration, use `space` to select, and use `q` to confirm.
4. Search Mode
\tf\t\t\tStart search mode
\tIn search mode, type the keywords, the item with better matching will rank higher. Use `up/down` to select items, use `enter` to exit search mode.
"@,
{
    "Usage: cdls [OPTION]\n
Options:
\t-h, --help\t\t\tHelp message\n
Operations in cdls screen:
1. Use arrow button to navigate in directory
\tLeft arrow\t\tGo to parent directory
\tRight arrow\t\tGo to child directory
\tUp arrow\t\tGo to previous item
\tDown arrow\t\tGo to next item
2. Enter button\t\t\tExit cdls and jump to current directory
3. Configuration Screen
\tc\t\t\tColumn Display
\ts\t\t\tSort by
\tIn configuration screen, use `arrow buttons` to navigate in configuration, use `space` to select, and use `q` to confirm.
4. Search Mode
\tf\t\t\tStart search mode
\tIn search mode, type the keywords, the item with better matching will rank higher. Use `up/down` to select items, use `enter` to exit search mode.
"
}

/// The rows of the column-configuration screen: a title, then one row per
/// column, starred when that column is shown. The caller highlights the
/// row of its selection cursor.
pub fn column_config_lines(cfg: &ViewConfig) -> (lines: Vec<String>)
    ensures
        lines@.len() == 5,
        lines@[0]@ == "Please Select Columns to Display\n"@,
        lines@[1]@ == spec_config_row(cfg.show_item_type, "Item Type"@),
        lines@[2]@ == spec_config_row(cfg.show_permission, "Permission"@),
        lines@[3]@ == spec_config_row(cfg.show_size, "Size"@),
        lines@[4]@ == spec_config_row(cfg.show_mtime, "Modification Time"@),
{
    let mut lines: Vec<String> = Vec::new();
    lines.push("Please Select Columns to Display\n".to_owned());
    lines.push(config_row(cfg.show_item_type, "Item Type"));
    lines.push(config_row(cfg.show_permission, "Permission"));
    lines.push(config_row(cfg.show_size, "Size"));
    lines.push(config_row(cfg.show_mtime, "Modification Time"));
    lines
}

/// The rows of the sort-configuration screen: a title, then one row per
/// sort key, starred on the key currently in effect. The caller
/// highlights the row of its selection cursor.
pub fn sort_config_lines(cfg: &ViewConfig) -> (lines: Vec<String>)
    ensures
        lines@.len() == 5,
        lines@[0]@ == "Sort the items by:\n"@,
        lines@[1]@ == spec_config_row(cfg.sort_key == SortKey::Filename, "File Name"@),
        lines@[2]@ == spec_config_row(cfg.sort_key == SortKey::ItemType, "Item Type"@),
        lines@[3]@ == spec_config_row(cfg.sort_key == SortKey::Size, "Size"@),
        lines@[4]@ == spec_config_row(cfg.sort_key == SortKey::ModifiedTime, "Modification Time"@),
{
    let mut lines: Vec<String> = Vec::new();
    lines.push("Sort the items by:\n".to_owned());
    lines.push(config_row(matches!(cfg.sort_key, SortKey::Filename), "File Name"));
    lines.push(config_row(matches!(cfg.sort_key, SortKey::ItemType), "Item Type"));
    lines.push(config_row(matches!(cfg.sort_key, SortKey::Size), "Size"));
    lines.push(config_row(matches!(cfg.sort_key, SortKey::ModifiedTime), "Modification Time"));
    lines
}

} // verus!
