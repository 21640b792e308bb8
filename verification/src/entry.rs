use vstd::prelude::*;

verus! {

/// Classification of one filesystem child, derived from a symlink-aware stat.
///
/// A symlink is classified before dereferencing, so a symlink to a directory
/// is still `Symlink`; `NoPermission` stands for a failed stat.
#[derive(Clone, Copy, Debug, PartialEq, Eq, Structural)]
pub enum EntryKind {
    Directory,
    File,
    Symlink,
    /// Socket or FIFO.
    Fd,
    /// Block or character device.
    Device,
    Unknown,
    NoPermission,
}

/// The raw facts about one child that the filesystem layer hands over:
/// whether the stat succeeded, the file-type flags, the mode and size, the
/// modification time as Unix seconds, and what a symlink points at.
pub struct RawStat {
    /// Whether the symlink-aware stat succeeded at all.
    pub stat_ok: bool,
    pub is_dir: bool,
    pub is_symlink: bool,
    pub is_socket: bool,
    pub is_fifo: bool,
    pub is_block_device: bool,
    pub is_char_device: bool,
    pub is_file: bool,
    /// Unix permission mode bits; meaningful only when `stat_ok`.
    pub mode: u32,
    /// Size in bytes; zero when the stat failed.
    pub size: u64,
    /// Whether a modification time could be read.
    pub mtime_ok: bool,
    /// Modification time as Unix seconds; zero when unavailable.
    pub mtime: i64,
    /// Whether the path, after following symlinks, is a directory.
    pub target_is_dir: bool,
    /// Resolved link text when the child is a symlink, else empty.
    pub symlink_target: String,
}

/// The kind that a set of stat flags classifies to, in priority order:
/// failed stat, directory, symlink, socket/FIFO, device, regular file,
/// anything else.
pub open spec fn spec_classify(r: RawStat) -> EntryKind {
    if !r.stat_ok {
        EntryKind::NoPermission
    } else if r.is_dir {
        EntryKind::Directory
    } else if r.is_symlink {
        EntryKind::Symlink
    } else if r.is_socket || r.is_fifo {
        EntryKind::Fd
    } else if r.is_block_device || r.is_char_device {
        EntryKind::Device
    } else if r.is_file {
        EntryKind::File
    } else {
        EntryKind::Unknown
    }
}

/// Classify a raw stat into an `EntryKind`.
pub fn classify(r: &RawStat) -> (k: EntryKind)
    ensures
        k == spec_classify(*r),
{
    if !r.stat_ok {
        EntryKind::NoPermission
    } else if r.is_dir {
        EntryKind::Directory
    } else if r.is_symlink {
        EntryKind::Symlink
    } else if r.is_socket || r.is_fifo {
        EntryKind::Fd
    } else if r.is_block_device || r.is_char_device {
        EntryKind::Device
    } else if r.is_file {
        EntryKind::File
    } else {
        EntryKind::Unknown
    }
}

/// The display label of a kind, as it appears in the type column.
pub open spec fn spec_kind_label(k: EntryKind) -> Seq<char> {
    match k {
        EntryKind::Directory => "DIR"@,
        EntryKind::File => "FILE"@,
        EntryKind::Symlink => "SYMLINK"@,
        EntryKind::Fd => "FD"@,
        EntryKind::Device => "DEV"@,
        EntryKind::Unknown => "UNKNOWN"@,
        EntryKind::NoPermission => "NO-PERMISSION"@,
    }
}

/// Display label of a kind.
pub fn kind_label(k: EntryKind) -> (r: &'static str)
    ensures
        r@ == spec_kind_label(k),
{
    match k {
        EntryKind::Directory => "DIR",
        EntryKind::File => "FILE",
        EntryKind::Symlink => "SYMLINK",
        EntryKind::Fd => "FD",
        EntryKind::Device => "DEV",
        EntryKind::Unknown => "UNKNOWN",
        EntryKind::NoPermission => "NO-PERMISSION",
    }
}

/// One directory child with its derived display attributes.
pub struct Entry {
    /// Full path of the child: the browsed directory joined with `name`.
    pub path: String,
    /// File name component alone.
    pub name: String,
    pub kind: EntryKind,
    /// Whether the stat succeeded; the metadata fields below are sentinels
    /// when it did not.
    pub stat_ok: bool,
    /// Unix permission mode bits.
    pub mode: u32,
    /// Size in bytes.
    pub size: u64,
    /// Whether a modification time could be read.
    pub mtime_ok: bool,
    /// Modification time as Unix seconds.
    pub mtime: i64,
    /// Whether the child, after following symlinks, is a directory.
    pub target_is_dir: bool,
    /// Resolved link text when `kind` is `Symlink`, else empty.
    pub symlink_target: String,
}

/// Mathematical image of an `Entry`: the same fields with strings as
/// character sequences.
pub struct EntryView {
    pub path: Seq<char>,
    pub name: Seq<char>,
    pub kind: EntryKind,
    pub stat_ok: bool,
    pub mode: u32,
    pub size: u64,
    pub mtime_ok: bool,
    pub mtime: i64,
    pub target_is_dir: bool,
    pub symlink_target: Seq<char>,
}

impl View for Entry {
    type V = EntryView;

    open spec fn view(&self) -> EntryView {
        EntryView {
            path: self.path@,
            name: self.name@,
            kind: self.kind,
            stat_ok: self.stat_ok,
            mode: self.mode,
            size: self.size,
            mtime_ok: self.mtime_ok,
            mtime: self.mtime,
            target_is_dir: self.target_is_dir,
            symlink_target: self.symlink_target@,
        }
    }
}

/// A directory path joined with a child name: a `/` separator is inserted
/// unless the directory already ends with one (the filesystem root).
pub open spec fn spec_join(dir: Seq<char>, name: Seq<char>) -> Seq<char> {
    if dir.len() > 0 && dir[dir.len() - 1] == '/' {
        dir + name
    } else {
        dir + seq!['/'] + name
    }
}

/// Join a directory path and a child name.
pub fn join_path(dir: &str, name: &str) -> (r: String)
    ensures
        r@ == spec_join(dir@, name@),
{
    let dlen = dir.unicode_len();
    let mut r = dir.to_owned();
    if dlen == 0 || dir.get_char(dlen - 1) != '/' {
        r.append("/");
        proof {
            reveal_strlit("/");
            assert(r@ =~= dir@ + seq!['/']);
        }
    }
    r.append(name);
    proof {
        if dlen == 0 || dir@[dlen - 1] != '/' {
            assert(r@ =~= dir@ + seq!['/'] + name@);
        }
    }
    r
}

/// The views of a listing, entry by entry.
pub open spec fn views(s: Seq<Entry>) -> Seq<EntryView> {
    s.map_values(|e: Entry| e@)
}

/// Index of the last `/` in a path, or `-1` when it has none.
pub open spec fn last_slash(p: Seq<char>) -> int
    decreases p.len(),
{
    if p.len() == 0 {
        -1
    } else if p[p.len() - 1] == '/' {
        p.len() - 1
    } else {
        last_slash(p.drop_last())
    }
}

/// The parent of a path: everything before its last `/`, except that the
/// root `/` is its own parent and a path without any `/` cannot ascend.
pub open spec fn spec_parent(p: Seq<char>) -> Seq<char> {
    let i = last_slash(p);
    if i < 0 {
        p
    } else if i == 0 {
        p.take(1)
    } else {
        p.take(i)
    }
}

proof fn lemma_last_slash_found(p: Seq<char>, k: int)
    requires
        0 <= k < p.len(),
        p[k] == '/',
        forall|j: int| k < j < p.len() ==> p[j] != '/',
    ensures
        last_slash(p) == k,
    decreases p.len(),
{
    if k < p.len() - 1 {
        lemma_last_slash_found(p.drop_last(), k);
    }
}

proof fn lemma_last_slash_none(p: Seq<char>)
    requires
        forall|j: int| 0 <= j < p.len() ==> p[j] != '/',
    ensures
        last_slash(p) == -1,
    decreases p.len(),
{
    if p.len() > 0 {
        lemma_last_slash_none(p.drop_last());
    }
}

/// The parent directory of `p`: the path up to its last `/`. The root `/`
/// stays the root; a path without a separator is returned unchanged.
pub fn parent_path(p: &str) -> (r: String)
    ensures
        r@ == spec_parent(p@),
{
    let len = p.unicode_len();
    let mut i: usize = len;
    while i > 0 && p.get_char(i - 1) != '/'
        invariant
            0 <= i <= len,
            len == p@.len(),
            forall|j: int| i <= j < len ==> p@[j] != '/',
        decreases i,
    {
        i = i - 1;
    }
    if i == 0 {
        proof {
            lemma_last_slash_none(p@);
        }
        p.to_owned()
    } else {
        proof {
            lemma_last_slash_found(p@, i - 1);
        }
        if i == 1 {
            let r = p.substring_char(0, 1);
            proof {
                assert(r@ =~= p@.take(1));
            }
            r.to_owned()
        } else {
            let r = p.substring_char(0, i - 1);
            proof {
                assert(r@ =~= p@.take(i - 1));
            }
            r.to_owned()
        }
    }
}

impl Entry {
    /// Build the entry for the child `name` of the directory `dir` from its
    /// raw stat facts.
    pub fn new(dir: &str, name: String, raw: RawStat) -> (e: Entry)
        ensures
            e@.path == spec_join(dir@, name@),
            e@.name == name@,
            e@.kind == spec_classify(raw),
            e@.stat_ok == raw.stat_ok,
            e@.mode == raw.mode,
            e@.size == raw.size,
            e@.mtime_ok == raw.mtime_ok,
            e@.mtime == raw.mtime,
            e@.target_is_dir == raw.target_is_dir,
            e@.symlink_target == raw.symlink_target@,
    {
        let path = join_path(dir, name.as_str());
        let kind = classify(&raw);
        Entry {
            path,
            name,
            kind,
            stat_ok: raw.stat_ok,
            mode: raw.mode,
            size: raw.size,
            mtime_ok: raw.mtime_ok,
            mtime: raw.mtime,
            target_is_dir: raw.target_is_dir,
            symlink_target: raw.symlink_target,
        }
    }
}

} // verus!
