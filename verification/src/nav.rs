use vstd::prelude::*;
use crate::entry::{parent_path, spec_parent, views, Entry, EntryView};
use crate::project::{find_path, sort_entries, spec_proj_le, spec_project, SortKey};

verus! {

/// A key event, as the terminal layer reports it. Printable characters
/// arrive as `Char`; control codes and special keys the browser does not
/// use arrive as `Other` and are ignored.
#[derive(Clone, Copy, Debug, PartialEq, Eq, Structural)]
pub enum Key {
    Up,
    Down,
    Left,
    Right,
    Enter,
    Backspace,
    Char(char),
    Other,
}

/// The modal state of the browser: `Browse` is the default; the
/// configuration and search states handle keys locally until they return
/// to `Browse`. The configuration states carry their own selection cursor.
#[derive(Clone, Copy, Debug, PartialEq, Eq, Structural)]
pub enum Mode {
    Browse,
    Help,
    ColumnConfig { row: usize },
    SortConfig { selected: SortKey },
    Search,
}

/// Process-lifetime view configuration: which columns are shown, the sort
/// key, and the search state. While searching, ordering is always by fuzzy
/// rank, irrespective of `sort_key`.
pub struct ViewConfig {
    pub show_item_type: bool,
    pub show_permission: bool,
    pub show_size: bool,
    pub show_mtime: bool,
    pub sort_key: SortKey,
    pub search_mode: bool,
    pub search_string: String,
}

/// The browsing position: the directory being browsed and the selected
/// entry, both tracked as path identities, never as indices.
pub struct Position {
    pub cur_dir: String,
    pub cur_item: String,
}

/// What a key step decides: keep browsing, leave without selecting, or
/// hand the chosen directory to the shell hand-off.
pub enum Outcome {
    Continue,
    Quit,
    HandOff(String),
}

/// The whole navigation state.
pub struct NavState {
    pub mode: Mode,
    pub cfg: ViewConfig,
    pub pos: Position,
}

/// Two configurations hold the same values.
pub open spec fn cfg_eq(a: ViewConfig, b: ViewConfig) -> bool {
    &&& a.show_item_type == b.show_item_type
    &&& a.show_permission == b.show_permission
    &&& a.show_size == b.show_size
    &&& a.show_mtime == b.show_mtime
    &&& a.sort_key == b.sort_key
    &&& a.search_mode == b.search_mode
    &&& a.search_string@ == b.search_string@
}

/// Two configurations show the same columns and sort the same way.
pub open spec fn cfg_eq_except_search(a: ViewConfig, b: ViewConfig) -> bool {
    &&& a.show_item_type == b.show_item_type
    &&& a.show_permission == b.show_permission
    &&& a.show_size == b.show_size
    &&& a.show_mtime == b.show_mtime
    &&& a.sort_key == b.sort_key
}

/// Two positions hold the same paths.
pub open spec fn pos_eq(a: Position, b: Position) -> bool {
    &&& a.cur_dir@ == b.cur_dir@
    &&& a.cur_item@ == b.cur_item@
}

/// Well-formed navigation state: the column-configuration cursor stays on
/// its four rows, the search flag mirrors the search mode, and the search
/// string is non-empty only while searching.
pub open spec fn wf_state(s: NavState) -> bool {
    &&& (s.mode matches Mode::ColumnConfig { row } ==> row <= 3)
    &&& (s.cfg.search_mode <==> s.mode is Search)
    &&& (!s.cfg.search_mode ==> s.cfg.search_string@.len() == 0)
}

/// The sort key one row above `k` in the sort-configuration list.
pub open spec fn spec_prev_key(k: SortKey) -> SortKey {
    match k {
        SortKey::Filename => SortKey::Filename,
        SortKey::ItemType => SortKey::Filename,
        SortKey::Size => SortKey::ItemType,
        SortKey::ModifiedTime => SortKey::Size,
    }
}

/// The sort key one row below `k` in the sort-configuration list.
pub open spec fn spec_next_key(k: SortKey) -> SortKey {
    match k {
        SortKey::Filename => SortKey::ItemType,
        SortKey::ItemType => SortKey::Size,
        SortKey::Size => SortKey::ModifiedTime,
        SortKey::ModifiedTime => SortKey::ModifiedTime,
    }
}

/// How a key transforms the `Browse` state.
///
/// Up and Down move the selection within the projection, stopping at its
/// ends. Left ascends to the parent directory — a no-op at the root — and
/// Right descends into the selected entry when it is (or links to) a
/// directory; both reset the selected item to the new directory itself.
/// Enter hands off the selected entry when it is a directory, else that
/// entry's parent; on an empty listing, the browsed directory itself.
/// `q` quits; `c`, `s`, `f`, `h` enter the sub-modes; all else is ignored.
pub open spec fn spec_step_browse(
    o: NavState,
    n: NavState,
    key: Key,
    ch: Seq<EntryView>,
    cursor: int,
    r: Outcome,
) -> bool {
    match key {
        Key::Up => {
            &&& r is Continue
            &&& n.mode is Browse
            &&& cfg_eq(n.cfg, o.cfg)
            &&& n.pos.cur_dir@ == o.pos.cur_dir@
            &&& n.pos.cur_item@ == if cursor > 0 && ch.len() > 1 {
                ch[cursor - 1].path
            } else {
                o.pos.cur_item@
            }
        },
        Key::Down => {
            &&& r is Continue
            &&& n.mode is Browse
            &&& cfg_eq(n.cfg, o.cfg)
            &&& n.pos.cur_dir@ == o.pos.cur_dir@
            &&& n.pos.cur_item@ == if ch.len() >= 1 && cursor < ch.len() - 1 {
                ch[cursor + 1].path
            } else {
                o.pos.cur_item@
            }
        },
        Key::Left => {
            &&& r is Continue
            &&& n.mode is Browse
            &&& cfg_eq(n.cfg, o.cfg)
            &&& n.pos.cur_dir@ == spec_parent(o.pos.cur_dir@)
            &&& n.pos.cur_item@ == spec_parent(o.pos.cur_dir@)
        },
        Key::Right => {
            &&& r is Continue
            &&& n.mode is Browse
            &&& cfg_eq(n.cfg, o.cfg)
            &&& if cursor < ch.len() && ch[cursor].target_is_dir {
                n.pos.cur_dir@ == ch[cursor].path && n.pos.cur_item@ == ch[cursor].path
            } else {
                pos_eq(n.pos, o.pos)
            }
        },
        Key::Enter => {
            &&& n.mode is Browse
            &&& cfg_eq(n.cfg, o.cfg)
            &&& pos_eq(n.pos, o.pos)
            &&& r matches Outcome::HandOff(d) && d@ == if cursor < ch.len() {
                if ch[cursor].target_is_dir {
                    ch[cursor].path
                } else {
                    spec_parent(ch[cursor].path)
                }
            } else {
                o.pos.cur_dir@
            }
        },
        Key::Char(c) => {
            if c == 'q' {
                r is Quit && n.mode is Browse && cfg_eq(n.cfg, o.cfg) && pos_eq(n.pos, o.pos)
            } else if c == 'c' {
                &&& r is Continue
                &&& n.mode == (Mode::ColumnConfig { row: 0 })
                &&& cfg_eq(n.cfg, o.cfg)
                &&& pos_eq(n.pos, o.pos)
            } else if c == 's' {
                &&& r is Continue
                &&& n.mode == (Mode::SortConfig { selected: o.cfg.sort_key })
                &&& cfg_eq(n.cfg, o.cfg)
                &&& pos_eq(n.pos, o.pos)
            } else if c == 'f' {
                &&& r is Continue
                &&& n.mode is Search
                &&& cfg_eq_except_search(n.cfg, o.cfg)
                &&& n.cfg.search_mode
                &&& n.cfg.search_string@ == o.cfg.search_string@
                &&& pos_eq(n.pos, o.pos)
            } else if c == 'h' {
                r is Continue && n.mode is Help && cfg_eq(n.cfg, o.cfg) && pos_eq(n.pos, o.pos)
            } else {
                r is Continue && n.mode is Browse && cfg_eq(n.cfg, o.cfg) && pos_eq(n.pos, o.pos)
            }
        },
        _ => r is Continue && n.mode is Browse && cfg_eq(n.cfg, o.cfg) && pos_eq(n.pos, o.pos),
    }
}

/// How a key transforms the `ColumnConfig` state: Up and Down move the
/// row cursor over the four column rows, Space toggles the highlighted
/// column, `q` returns to browsing, all else is ignored.
pub open spec fn spec_step_column(
    o: NavState,
    n: NavState,
    sel: int,
    key: Key,
    r: Outcome,
) -> bool {
    &&& r is Continue
    &&& pos_eq(n.pos, o.pos)
    &&& match key {
        Key::Up => {
            &&& n.mode == (Mode::ColumnConfig {
                row: (if sel > 0 {
                    sel - 1
                } else {
                    sel
                }) as usize,
            })
            &&& cfg_eq(n.cfg, o.cfg)
        },
        Key::Down => {
            &&& n.mode == (Mode::ColumnConfig {
                row: (if sel < 3 {
                    sel + 1
                } else {
                    sel
                }) as usize,
            })
            &&& cfg_eq(n.cfg, o.cfg)
        },
        Key::Char(c) => {
            if c == ' ' {
                &&& n.mode == o.mode
                &&& n.cfg.show_item_type == (if sel == 0 {
                    !o.cfg.show_item_type
                } else {
                    o.cfg.show_item_type
                })
                &&& n.cfg.show_permission == (if sel == 1 {
                    !o.cfg.show_permission
                } else {
                    o.cfg.show_permission
                })
                &&& n.cfg.show_size == (if sel == 2 {
                    !o.cfg.show_size
                } else {
                    o.cfg.show_size
                })
                &&& n.cfg.show_mtime == (if sel == 3 {
                    !o.cfg.show_mtime
                } else {
                    o.cfg.show_mtime
                })
                &&& n.cfg.sort_key == o.cfg.sort_key
                &&& n.cfg.search_mode == o.cfg.search_mode
                &&& n.cfg.search_string@ == o.cfg.search_string@
            } else if c == 'q' {
                n.mode is Browse && cfg_eq(n.cfg, o.cfg)
            } else {
                n.mode == o.mode && cfg_eq(n.cfg, o.cfg)
            }
        },
        _ => n.mode == o.mode && cfg_eq(n.cfg, o.cfg),
    }
}

/// How a key transforms the `SortConfig` state: Up and Down move the row
/// cursor over the four keys, Space commits the highlighted key as the
/// sort key, `q` returns to browsing, all else is ignored.
pub open spec fn spec_step_sort(o: NavState, n: NavState, sel: SortKey, key: Key, r: Outcome) -> bool {
    &&& r is Continue
    &&& pos_eq(n.pos, o.pos)
    &&& match key {
        Key::Up => n.mode == (Mode::SortConfig { selected: spec_prev_key(sel) }) && cfg_eq(
            n.cfg,
            o.cfg,
        ),
        Key::Down => n.mode == (Mode::SortConfig { selected: spec_next_key(sel) }) && cfg_eq(
            n.cfg,
            o.cfg,
        ),
        Key::Char(c) => {
            if c == ' ' {
                &&& n.mode == o.mode
                &&& n.cfg.sort_key == sel
                &&& n.cfg.show_item_type == o.cfg.show_item_type
                &&& n.cfg.show_permission == o.cfg.show_permission
                &&& n.cfg.show_size == o.cfg.show_size
                &&& n.cfg.show_mtime == o.cfg.show_mtime
                &&& n.cfg.search_mode == o.cfg.search_mode
                &&& n.cfg.search_string@ == o.cfg.search_string@
            } else if c == 'q' {
                n.mode is Browse && cfg_eq(n.cfg, o.cfg)
            } else {
                n.mode == o.mode && cfg_eq(n.cfg, o.cfg)
            }
        },
        _ => n.mode == o.mode && cfg_eq(n.cfg, o.cfg),
    }
}

/// How a key transforms the `Search` state.
///
/// A printable character is appended to the query and a Backspace removes
/// its last character; either edit resets the selected item to the
/// browsed directory, restarting the cursor at the top of the re-ranked
/// list. Up and Down move the selection. Enter leaves search mode and
/// clears the query. All else is ignored.
pub open spec fn spec_step_search(
    o: NavState,
    n: NavState,
    key: Key,
    ch: Seq<EntryView>,
    cursor: int,
    r: Outcome,
) -> bool {
    &&& r is Continue
    &&& n.pos.cur_dir@ == o.pos.cur_dir@
    &&& match key {
        Key::Char(c) => {
            &&& n.mode is Search
            &&& cfg_eq_except_search(n.cfg, o.cfg)
            &&& n.cfg.search_mode
            &&& n.cfg.search_string@ == o.cfg.search_string@.push(c)
            &&& n.pos.cur_item@ == o.pos.cur_dir@
        },
        Key::Backspace => {
            &&& n.mode is Search
            &&& cfg_eq_except_search(n.cfg, o.cfg)
            &&& n.cfg.search_mode
            &&& n.cfg.search_string@ == if o.cfg.search_string@.len() > 0 {
                o.cfg.search_string@.drop_last()
            } else {
                o.cfg.search_string@
            }
            &&& n.pos.cur_item@ == o.pos.cur_dir@
        },
        Key::Up => {
            &&& n.mode is Search
            &&& cfg_eq(n.cfg, o.cfg)
            &&& n.pos.cur_item@ == if cursor > 0 && cursor < ch.len() {
                ch[cursor - 1].path
            } else {
                o.pos.cur_item@
            }
        },
        Key::Down => {
            &&& n.mode is Search
            &&& cfg_eq(n.cfg, o.cfg)
            &&& n.pos.cur_item@ == if ch.len() >= 1 && cursor < ch.len() - 1 {
                ch[cursor + 1].path
            } else {
                o.pos.cur_item@
            }
        },
        Key::Enter => {
            &&& n.mode is Browse
            &&& cfg_eq_except_search(n.cfg, o.cfg)
            &&& !n.cfg.search_mode
            &&& n.cfg.search_string@.len() == 0
            &&& n.pos.cur_item@ == o.pos.cur_item@
        },
        _ => n.mode is Search && cfg_eq(n.cfg, o.cfg) && n.pos.cur_item@ == o.pos.cur_item@,
    }
}

/// The full key-to-transition table of the navigation state machine.
pub open spec fn spec_step(
    o: NavState,
    n: NavState,
    key: Key,
    ch: Seq<EntryView>,
    cursor: int,
    r: Outcome,
) -> bool {
    match o.mode {
        Mode::Browse => spec_step_browse(o, n, key, ch, cursor, r),
        Mode::Help => r is Continue && n.mode is Browse && cfg_eq(n.cfg, o.cfg) && pos_eq(
            n.pos,
            o.pos,
        ),
        Mode::ColumnConfig { row } => spec_step_column(o, n, row as int, key, r),
        Mode::SortConfig { selected } => spec_step_sort(o, n, selected, key, r),
        Mode::Search => spec_step_search(o, n, key, ch, cursor, r),
    }
}

impl ViewConfig {
    /// The startup configuration: every column shown, sorting by file
    /// name, not searching.
    pub fn new() -> (c: ViewConfig)
        ensures
            c.show_item_type && c.show_permission && c.show_size && c.show_mtime,
            c.sort_key == SortKey::Filename,
            !c.search_mode,
            c.search_string@.len() == 0,
    {
        ViewConfig {
            show_item_type: true,
            show_permission: true,
            show_size: true,
            show_mtime: true,
            sort_key: SortKey::Filename,
            search_mode: false,
            search_string: String::new(),
        }
    }
}

impl Position {
    /// The startup position: browsing `dir` with the directory itself
    /// selected, so the first frame moves the selection to the first
    /// child.
    pub fn new(dir: String) -> (p: Position)
        ensures
            p.cur_dir@ == dir@,
            p.cur_item@ == dir@,
    {
        let item = dir.clone();
        Position { cur_dir: dir, cur_item: item }
    }
}

impl NavState {
    /// The startup state: browsing `dir` with the default configuration.
    pub fn new(dir: String) -> (s: NavState)
        ensures
            wf_state(s),
            s.mode is Browse,
            s.pos.cur_dir@ == dir@,
            s.pos.cur_item@ == dir@,
            !s.cfg.search_mode,
            s.cfg.sort_key == SortKey::Filename,
            s.cfg.show_item_type && s.cfg.show_permission && s.cfg.show_size && s.cfg.show_mtime,
    {
        NavState { mode: Mode::Browse, cfg: ViewConfig::new(), pos: Position::new(dir) }
    }
}

/// The projection order reads only the search state, the query and the
/// sort key: two configurations that agree on those order entries alike,
/// whatever columns they display.
pub proof fn lemma_projection_ignores_columns(
    a: ViewConfig,
    b: ViewConfig,
    x: EntryView,
    y: EntryView,
)
    requires
        a.search_mode == b.search_mode,
        a.search_string@ == b.search_string@,
        a.sort_key == b.sort_key,
    ensures
        spec_proj_le(a.search_mode, a.search_string@, a.sort_key, x, y) == spec_proj_le(
            b.search_mode,
            b.search_string@,
            b.sort_key,
            x,
            y,
        ),
{
}

/// Project the fresh listing and re-resolve the selection against it.
///
/// The listing is sorted into the projection order of the configuration.
/// If the selected item is the browsed directory itself — the browser just
/// entered it — the selection moves to the first projected child. The
/// returned cursor is the index of the first entry whose path equals the
/// selected item, or 0 when the selection is not in the projection.
pub fn prepare_frame(children: &mut Vec<Entry>, cfg: &ViewConfig, pos: &mut Position) -> (cursor:
    usize)
    ensures
        final(children)@.len() == old(children)@.len(),
        final(children)@.to_multiset() =~= old(children)@.to_multiset(),
        views(final(children)@) == spec_project(
            cfg.search_mode,
            cfg.search_string@,
            cfg.sort_key,
            views(old(children)@),
        ),
        forall|x: int, y: int|
            0 <= x < y < final(children)@.len() ==> spec_proj_le(
                cfg.search_mode,
                cfg.search_string@,
                cfg.sort_key,
                final(children)@[x]@,
                final(children)@[y]@,
            ),
        final(pos).cur_dir@ == old(pos).cur_dir@,
        final(pos).cur_item@ == if final(children)@.len() >= 1 && old(pos).cur_item@ == old(
            pos,
        ).cur_dir@ {
            final(children)@[0]@.path
        } else {
            old(pos).cur_item@
        },
        final(children)@.len() == 0 ==> cursor == 0,
        final(children)@.len() > 0 ==> cursor < final(children)@.len(),
        if exists|k: int|
            0 <= k < final(children)@.len() && final(children)@[k]@.path == final(pos).cur_item@ {
            &&& cursor < final(children)@.len()
            &&& final(children)@[cursor as int]@.path == final(pos).cur_item@
            &&& forall|k: int| 0 <= k < cursor ==> final(children)@[k]@.path != final(pos).cur_item@
        } else {
            cursor == 0
        },
{
    sort_entries(children, cfg.search_mode, cfg.search_string.as_str(), cfg.sort_key);
    if children.len() >= 1 && pos.cur_item.eq(&pos.cur_dir) {
        pos.cur_item = children[0].path.clone();
    }
    match find_path(children, &pos.cur_item) {
        Some(i) => i,
        None => 0,
    }
}

/// Dispatch one key event: apply the transition table to the state and
/// say whether to keep browsing, quit, or hand off to the shell.
pub fn step(s: &mut NavState, key: Key, children: &Vec<Entry>, cursor: usize) -> (r: Outcome)
    requires
        wf_state(*old(s)),
        cursor < children@.len() || cursor == 0,
    ensures
        wf_state(*final(s)),
        spec_step(*old(s), *final(s), key, views(children@), cursor as int, r),
{
    proof {
        assert(views(children@).len() == children@.len());
        assert(forall|k: int|
            0 <= k < children@.len() ==> views(children@)[k] == children@[k]@);
    }
    let mode = s.mode;
    match mode {
        Mode::Browse => match key {
            Key::Up => {
                if cursor > 0 && children.len() > 1 {
                    s.pos.cur_item = children[cursor - 1].path.clone();
                }
                Outcome::Continue
            },
            Key::Down => {
                if children.len() >= 1 && cursor < children.len() - 1 {
                    s.pos.cur_item = children[cursor + 1].path.clone();
                }
                Outcome::Continue
            },
            Key::Left => {
                let parent = parent_path(s.pos.cur_dir.as_str());
                s.pos.cur_dir = parent;
                s.pos.cur_item = s.pos.cur_dir.clone();
                Outcome::Continue
            },
            Key::Right => {
                if cursor < children.len() && children[cursor].target_is_dir {
                    s.pos.cur_dir = children[cursor].path.clone();
                    s.pos.cur_item = children[cursor].path.clone();
                }
                Outcome::Continue
            },
            Key::Enter => {
                if cursor < children.len() {
                    if children[cursor].target_is_dir {
                        Outcome::HandOff(children[cursor].path.clone())
                    } else {
                        Outcome::HandOff(parent_path(children[cursor].path.as_str()))
                    }
                } else {
                    Outcome::HandOff(s.pos.cur_dir.clone())
                }
            },
            Key::Char(c) => {
                if c == 'q' {
                    Outcome::Quit
                } else if c == 'c' {
                    s.mode = Mode::ColumnConfig { row: 0 };
                    Outcome::Continue
                } else if c == 's' {
                    s.mode = Mode::SortConfig { selected: s.cfg.sort_key };
                    Outcome::Continue
                } else if c == 'f' {
                    s.mode = Mode::Search;
                    s.cfg.search_mode = true;
                    Outcome::Continue
                } else if c == 'h' {
                    s.mode = Mode::Help;
                    Outcome::Continue
                } else {
                    Outcome::Continue
                }
            },
            _ => Outcome::Continue,
        },
        Mode::Help => {
            s.mode = Mode::Browse;
            Outcome::Continue
        },
        Mode::ColumnConfig { row } => {
            match key {
                Key::Up => {
                    if row > 0 {
                        s.mode = Mode::ColumnConfig { row: row - 1 };
                    }
                },
                Key::Down => {
                    if row < 3 {
                        s.mode = Mode::ColumnConfig { row: row + 1 };
                    }
                },
                Key::Char(c) => {
                    if c == ' ' {
                        if row == 0 {
                            s.cfg.show_item_type = !s.cfg.show_item_type;
                        } else if row == 1 {
                            s.cfg.show_permission = !s.cfg.show_permission;
                        } else if row == 2 {
                            s.cfg.show_size = !s.cfg.show_size;
                        } else {
                            s.cfg.show_mtime = !s.cfg.show_mtime;
                        }
                    } else if c == 'q' {
                        s.mode = Mode::Browse;
                    }
                },
                _ => (),
            }
            Outcome::Continue
        },
        Mode::SortConfig { selected } => {
            match key {
                Key::Up => {
                    s.mode = Mode::SortConfig { selected: prev_key(selected) };
                },
                Key::Down => {
                    s.mode = Mode::SortConfig { selected: next_key(selected) };
                },
                Key::Char(c) => {
                    if c == ' ' {
                        s.cfg.sort_key = selected;
                    } else if c == 'q' {
                        s.mode = Mode::Browse;
                    }
                },
                _ => (),
            }
            Outcome::Continue
        },
        Mode::Search => {
            match key {
                Key::Char(c) => {
                    push_char(&mut s.cfg.search_string, c);
                    s.pos.cur_item = s.pos.cur_dir.clone();
                },
                Key::Backspace => {
                    let q = s.cfg.search_string.as_str();
                    let qlen = q.unicode_len();
                    if qlen > 0 {
                        let shorter = q.substring_char(0, qlen - 1).to_owned();
                        proof {
                            assert(shorter@ =~= s.cfg.search_string@.drop_last());
                        }
                        s.cfg.search_string = shorter;
                    }
                    s.pos.cur_item = s.pos.cur_dir.clone();
                },
                Key::Up => {
                    if cursor > 0 && cursor < children.len() {
                        s.pos.cur_item = children[cursor - 1].path.clone();
                    }
                },
                Key::Down => {
                    if children.len() >= 1 && cursor < children.len() - 1 {
                        s.pos.cur_item = children[cursor + 1].path.clone();
                    }
                },
                Key::Enter => {
                    s.cfg.search_mode = false;
                    s.cfg.search_string = String::new();
                    s.mode = Mode::Browse;
                },
                _ => (),
            }
            Outcome::Continue
        },
    }
}

/// Relies on std's `String::push`: appends one character to the string.
#[verifier::external_body]
fn push_char(s: &mut String, c: char)
    ensures
        final(s)@ == old(s)@.push(c),
{
    s.push(c);
}

/// The sort key one row above `k` in the sort-configuration list.
pub fn prev_key(k: SortKey) -> (r: SortKey)
    ensures
        r == spec_prev_key(k),
{
    match k {
        SortKey::Filename => SortKey::Filename,
        SortKey::ItemType => SortKey::Filename,
        SortKey::Size => SortKey::ItemType,
        SortKey::ModifiedTime => SortKey::Size,
    }
}

/// The sort key one row below `k` in the sort-configuration list.
pub fn next_key(k: SortKey) -> (r: SortKey)
    ensures
        r == spec_next_key(k),
{
    match k {
        SortKey::Filename => SortKey::ItemType,
        SortKey::ItemType => SortKey::Size,
        SortKey::Size => SortKey::ModifiedTime,
        SortKey::ModifiedTime => SortKey::ModifiedTime,
    }
}

} // verus!
