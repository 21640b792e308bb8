use vstd::prelude::*;
use vstd::seq_lib::{group_to_multiset_ensures, lemma_multiset_commutative};
use vstd::multiset::group_multiset_axioms;
use crate::entry::{kind_label, spec_kind_label, views, Entry, EntryKind, EntryView};
use crate::fuzzy::{fuzzy_match_count, match_count};
use crate::order::{lemma_lex_le_total, lemma_lex_le_trans, lex_le, str_le};

verus! {

/// The configured ordering of the directory listing while not searching.
#[derive(Clone, Copy, Debug, PartialEq, Eq, Structural)]
pub enum SortKey {
    Filename,
    ItemType,
    Size,
    ModifiedTime,
}

impl SortKey {
    /// Position of this key in the fixed sort-configuration list.
    pub fn to_usize(&self) -> (r: usize)
        ensures
            r == match *self {
                SortKey::Filename => 0int,
                SortKey::ItemType => 1int,
                SortKey::Size => 2int,
                SortKey::ModifiedTime => 3int,
            },
    {
        match self {
            SortKey::Filename => 0,
            SortKey::ItemType => 1,
            SortKey::Size => 2,
            SortKey::ModifiedTime => 3,
        }
    }

    /// The display label of this key in the sort-configuration screen.
    pub fn label(&self) -> (r: &'static str)
        ensures
            r@ == spec_sort_key_label(*self),
    {
        match self {
            SortKey::Filename => "File Name",
            SortKey::ItemType => "Item Type",
            SortKey::Size => "Size",
            SortKey::ModifiedTime => "Modification Time",
        }
    }
}

/// Display label of a sort key.
pub open spec fn spec_sort_key_label(k: SortKey) -> Seq<char> {
    match k {
        SortKey::Filename => "File Name"@,
        SortKey::ItemType => "Item Type"@,
        SortKey::Size => "Size"@,
        SortKey::ModifiedTime => "Modification Time"@,
    }
}

/// The byte count an entry sorts by: directories and unreadable entries
/// count as zero.
pub open spec fn size_key(e: EntryView) -> int {
    if e.kind == EntryKind::Directory || !e.stat_ok {
        0
    } else {
        e.size as int
    }
}

/// The timestamp an entry sorts by: entries without a readable
/// modification time count as the epoch.
pub open spec fn time_key(e: EntryView) -> int {
    if e.stat_ok && e.mtime_ok {
        e.mtime as int
    } else {
        0
    }
}

/// The projection order: `a` may precede `b`.
///
/// While searching, entries rank by descending fuzzy match count of their
/// names against the query; otherwise by the configured key — paths and
/// type labels in lexicographic code-point order, sizes and timestamps
/// ascending.
pub open spec fn spec_proj_le(search: bool, q: Seq<char>, key: SortKey, a: EntryView, b: EntryView) -> bool {
    if search {
        match_count(q, b.name) <= match_count(q, a.name)
    } else {
        match key {
            SortKey::Filename => lex_le(a.path, b.path),
            SortKey::ItemType => lex_le(spec_kind_label(a.kind), spec_kind_label(b.kind)),
            SortKey::Size => size_key(a) <= size_key(b),
            SortKey::ModifiedTime => time_key(a) <= time_key(b),
        }
    }
}

/// Any two entries are comparable in the projection order.
pub proof fn lemma_proj_le_total(search: bool, q: Seq<char>, key: SortKey, a: EntryView, b: EntryView)
    ensures
        spec_proj_le(search, q, key, a, b) || spec_proj_le(search, q, key, b, a),
{
    if !search {
        match key {
            SortKey::Filename => lemma_lex_le_total(a.path, b.path),
            SortKey::ItemType => lemma_lex_le_total(
                spec_kind_label(a.kind),
                spec_kind_label(b.kind),
            ),
            _ => (),
        }
    }
}

/// The projection order is transitive.
pub proof fn lemma_proj_le_trans(
    search: bool,
    q: Seq<char>,
    key: SortKey,
    a: EntryView,
    b: EntryView,
    c: EntryView,
)
    requires
        spec_proj_le(search, q, key, a, b),
        spec_proj_le(search, q, key, b, c),
    ensures
        spec_proj_le(search, q, key, a, c),
{
    if !search {
        match key {
            SortKey::Filename => lemma_lex_le_trans(a.path, b.path, c.path),
            SortKey::ItemType => lemma_lex_le_trans(
                spec_kind_label(a.kind),
                spec_kind_label(b.kind),
                spec_kind_label(c.kind),
            ),
            _ => (),
        }
    }
}

/// Decide the projection order between two entries.
fn proj_le(search: bool, q: &str, key: SortKey, a: &Entry, b: &Entry) -> (r: bool)
    ensures
        r == spec_proj_le(search, q@, key, a@, b@),
{
    if search {
        let ma = fuzzy_match_count(q, a.name.as_str());
        let mb = fuzzy_match_count(q, b.name.as_str());
        mb <= ma
    } else {
        match key {
            SortKey::Filename => str_le(a.path.as_str(), b.path.as_str()),
            SortKey::ItemType => str_le(kind_label(a.kind), kind_label(b.kind)),
            SortKey::Size => {
                let sa: u64 = if matches!(a.kind, EntryKind::Directory) || !a.stat_ok {
                    0
                } else {
                    a.size
                };
                let sb: u64 = if matches!(b.kind, EntryKind::Directory) || !b.stat_ok {
                    0
                } else {
                    b.size
                };
                sa <= sb
            },
            SortKey::ModifiedTime => {
                let ta: i64 = if a.stat_ok && a.mtime_ok {
                    a.mtime
                } else {
                    0
                };
                let tb: i64 = if b.stat_ok && b.mtime_ok {
                    b.mtime
                } else {
                    0
                };
                ta <= tb
            },
        }
    }
}

/// Stable insertion of `x` into `s`: `x` goes after every entry that may
/// precede it, before the first that may not.
pub open spec fn spec_sorted_insert(
    search: bool,
    q: Seq<char>,
    key: SortKey,
    s: Seq<EntryView>,
    x: EntryView,
) -> Seq<EntryView>
    decreases s.len(),
{
    if s.len() == 0 {
        seq![x]
    } else if spec_proj_le(search, q, key, s[0], x) {
        seq![s[0]] + spec_sorted_insert(search, q, key, s.drop_first(), x)
    } else {
        seq![x] + s
    }
}

/// The projection of a listing: its entries, in listing order, each
/// inserted stably into the sorted result so far. This is the stable sort
/// by `spec_proj_le`: entries of equal rank keep their listing order.
pub open spec fn spec_project(
    search: bool,
    q: Seq<char>,
    key: SortKey,
    s: Seq<EntryView>,
) -> Seq<EntryView>
    decreases s.len(),
{
    if s.len() == 0 {
        s
    } else {
        spec_sorted_insert(search, q, key, spec_project(search, q, key, s.drop_last()), s.last())
    }
}

/// Where the stable insertion lands: just before index `j`, the first
/// whose entry may not precede `x`.
proof fn lemma_sorted_insert_at(
    search: bool,
    q: Seq<char>,
    key: SortKey,
    s: Seq<EntryView>,
    x: EntryView,
    j: int,
)
    requires
        0 <= j <= s.len(),
        forall|k: int| 0 <= k < j ==> spec_proj_le(search, q, key, s[k], x),
        j < s.len() ==> !spec_proj_le(search, q, key, s[j], x),
    ensures
        spec_sorted_insert(search, q, key, s, x) =~= s.take(j) + seq![x] + s.skip(j),
    decreases j,
{
    if j > 0 {
        lemma_sorted_insert_at(search, q, key, s.drop_first(), x, j - 1);
        assert(seq![s[0]] + (s.drop_first().take(j - 1) + seq![x] + s.drop_first().skip(j - 1))
            =~= s.take(j) + seq![x] + s.skip(j));
    }
}

/// Inserting an element anywhere in a sequence inserts it into the
/// sequence's multiset of elements.
proof fn lemma_to_multiset_insert<A>(s: Seq<A>, j: int, x: A)
    requires
        0 <= j <= s.len(),
    ensures
        s.insert(j, x).to_multiset() =~= s.to_multiset().insert(x),
{
    broadcast use group_to_multiset_ensures;
    broadcast use group_multiset_axioms;

    assert(s.insert(j, x) =~= s.take(j).push(x) + s.skip(j));
    lemma_multiset_commutative(s.take(j).push(x), s.skip(j));
    assert(s =~= s.take(j) + s.skip(j));
    lemma_multiset_commutative(s.take(j), s.skip(j));
    assert(s.take(j).push(x).to_multiset() =~= s.take(j).to_multiset().insert(x));
}

/// Sort entries into the projection order for the given mode, query and
/// key: the result is exactly the stable sort of the listing — the same
/// entries, every pair in order, and entries of equal rank still in their
/// listing order.
pub fn sort_entries(v: &mut Vec<Entry>, search: bool, q: &str, key: SortKey)
    ensures
        final(v)@.len() == old(v)@.len(),
        final(v)@.to_multiset() =~= old(v)@.to_multiset(),
        forall|x: int, y: int|
            0 <= x < y < final(v)@.len() ==> spec_proj_le(search, q@, key, final(v)@[x]@, final(v)@[y]@),
        views(final(v)@) == spec_project(search, q@, key, views(old(v)@)),
{
    broadcast use group_to_multiset_ensures;

    let ghost orig = v@;
    let n = v.len();
    if n <= 1 {
        proof {
            if n == 1 {
                let vs = views(orig);
                assert(vs.drop_last().len() == 0);
                assert(spec_project(search, q@, key, vs.drop_last()) == vs.drop_last());
                assert(spec_project(search, q@, key, vs) == spec_sorted_insert(
                    search,
                    q@,
                    key,
                    vs.drop_last(),
                    vs.last(),
                ));
                assert(spec_sorted_insert(search, q@, key, vs.drop_last(), vs.last()) =~= seq![
                    vs.last(),
                ]);
                assert(views(v@) =~= seq![vs.last()]);
            } else {
                assert(views(v@) =~= spec_project(search, q@, key, views(orig)));
            }
        }
        return;
    }
    let mut i: usize = 1;
    proof {
        let vs1 = views(orig).take(1);
        assert(vs1.len() == 1);
        assert(vs1.drop_last().len() == 0);
        assert(spec_project(search, q@, key, vs1.drop_last()) == vs1.drop_last());
        assert(spec_project(search, q@, key, vs1) == spec_sorted_insert(
            search,
            q@,
            key,
            vs1.drop_last(),
            vs1.last(),
        ));
        assert(spec_sorted_insert(search, q@, key, vs1.drop_last(), vs1.last()) =~= seq![
            vs1.last(),
        ]);
        assert(views(v@).take(1) =~= seq![vs1.last()]);
        assert(views(v@).take(1) == spec_project(search, q@, key, vs1));
    }
    while i < n
        invariant
            1 <= i <= n,
            n == v@.len(),
            n == orig.len(),
            v@.to_multiset() =~= orig.to_multiset(),
            forall|x: int, y: int|
                0 <= x < y < i ==> spec_proj_le(search, q@, key, v@[x]@, v@[y]@),
            views(v@).take(i as int) == spec_project(search, q@, key, views(orig).take(i as int)),
            v@.skip(i as int) == orig.skip(i as int),
        decreases n - i,
    {
        let mut j: usize = 0;
        while j < i && proj_le(search, q, key, &v[j], &v[i])
            invariant
                0 <= j <= i < n,
                n == v@.len(),
                forall|k: int| 0 <= k < j ==> spec_proj_le(search, q@, key, v@[k]@, v@[i as int]@),
            decreases i - j,
        {
            j = j + 1;
        }
        proof {
            assert(v@[i as int] == orig[i as int]) by {
                assert(v@.skip(i as int)[0] == orig.skip(i as int)[0]);
            }
        }
        let ghost pfx = views(v@).take(i as int);
        if j < i {
            let ghost before = v@;
            let x = v.remove(i);
            let ghost mid = v@;
            v.insert(j, x);
            proof {
                broadcast use group_multiset_axioms;

                before.to_multiset_ensures();
                assert(mid == before.remove(i as int));
                assert(before.remove(i as int).to_multiset() =~= before.to_multiset().remove(
                    before[i as int],
                ));
                assert(mid.to_multiset() =~= before.to_multiset().remove(x));
                assert(v@ =~= mid.insert(j as int, x));
                lemma_to_multiset_insert(mid, j as int, x);
                assert(before.contains(x)) by {
                    assert(before[i as int] == x);
                }
                assert(before.to_multiset().count(x) > 0);
                assert(before.to_multiset().remove(x).insert(x) =~= before.to_multiset());
                assert(v@.to_multiset() =~= orig.to_multiset());
                // order around the inserted element
                assert(!spec_proj_le(search, q@, key, before[j as int]@, x@));
                lemma_proj_le_total(search, q@, key, before[j as int]@, x@);
                assert forall|y: int| j < y <= i implies spec_proj_le(
                    search,
                    q@,
                    key,
                    x@,
                    v@[y]@,
                ) by {
                    assert(v@[y] == before[y - 1]);
                    if y - 1 > j {
                        assert(spec_proj_le(search, q@, key, before[j as int]@, before[y - 1]@));
                        lemma_proj_le_trans(search, q@, key, x@, before[j as int]@, before[y - 1]@);
                    }
                }
                assert forall|a: int, b: int| 0 <= a < b <= i implies spec_proj_le(
                    search,
                    q@,
                    key,
                    v@[a]@,
                    v@[b]@,
                ) by {
                    if b < j {
                        assert(v@[a] == before[a] && v@[b] == before[b]);
                    } else if b == j {
                        assert(v@[a] == before[a]);
                        assert(v@[b] == x);
                        assert(spec_proj_le(search, q@, key, before[a]@, x@));
                    } else {
                        assert(v@[b] == before[b - 1]);
                        if a < j {
                            assert(v@[a] == before[a]);
                            assert(spec_proj_le(search, q@, key, before[a]@, before[b - 1]@));
                        } else if a > j {
                            assert(v@[a] == before[a - 1]);
                            assert(spec_proj_le(search, q@, key, before[a - 1]@, before[b - 1]@));
                        }
                        // a == j: the inserted element precedes the shifted
                        // tail, shown just above for all of it at once.
                    }
                }
                // the new prefix is the stable insert of x into the old one
                assert(forall|k: int| 0 <= k < i ==> pfx[k] == before[k]@);
                lemma_sorted_insert_at(search, q@, key, pfx, x@, j as int);
                assert(views(v@).take(i as int + 1) =~= pfx.take(j as int) + seq![x@] + pfx.skip(
                    j as int,
                ));
                assert(views(v@).take(i as int + 1) == spec_sorted_insert(search, q@, key, pfx, x@));
                assert(views(orig).take(i as int + 1).drop_last() =~= views(orig).take(i as int));
                assert(views(orig).take(i as int + 1).last() == orig[i as int]@);
                assert(x@ == orig[i as int]@);
                assert(views(v@).take(i as int + 1) == spec_project(
                    search,
                    q@,
                    key,
                    views(orig).take(i as int + 1),
                ));
                assert forall|k: int| i + 1 <= k < n implies v@[k] == orig[k] by {
                    assert(v@[k] == mid[k - 1]);
                    assert(mid[k - 1] == before[k]);
                    assert(before.skip(i as int)[k - i] == orig.skip(i as int)[k - i]);
                }
                assert(v@.skip(i as int + 1) =~= orig.skip(i as int + 1));
            }
        } else {
            proof {
                assert(forall|k: int|
                    0 <= k < i ==> spec_proj_le(search, q@, key, v@[k]@, v@[i as int]@));
                let x = v@[i as int]@;
                assert(forall|k: int| 0 <= k < i ==> pfx[k] == v@[k]@);
                lemma_sorted_insert_at(search, q@, key, pfx, x, i as int);
                assert(pfx.take(i as int) =~= pfx);
                assert(pfx.skip(i as int) =~= Seq::<EntryView>::empty());
                assert(views(v@).take(i as int + 1) =~= pfx.take(i as int) + seq![x] + pfx.skip(
                    i as int,
                ));
                assert(views(v@).take(i as int + 1) == spec_sorted_insert(search, q@, key, pfx, x));
                assert(views(orig).take(i as int + 1).drop_last() =~= views(orig).take(i as int));
                assert(views(orig).take(i as int + 1).last() == orig[i as int]@);
                assert(views(v@).take(i as int + 1) == spec_project(
                    search,
                    q@,
                    key,
                    views(orig).take(i as int + 1),
                ));
                assert forall|k: int| i + 1 <= k < n implies v@[k] == orig[k] by {
                    assert(v@.skip(i as int)[k - i] == orig.skip(i as int)[k - i]);
                }
                assert(v@.skip(i as int + 1) =~= orig.skip(i as int + 1));
            }
        }
        i = i + 1;
    }
    proof {
        assert(views(v@).take(n as int) =~= views(v@));
        assert(views(orig).take(n as int) =~= views(orig));
    }
}

/// The first index whose entry has exactly the path `p`, if any.
pub fn find_path(v: &Vec<Entry>, p: &String) -> (r: Option<usize>)
    ensures
        match r {
            Some(i) => {
                &&& i < v@.len()
                &&& v@[i as int]@.path == p@
                &&& forall|k: int| 0 <= k < i ==> v@[k]@.path != p@
            },
            None => forall|k: int| 0 <= k < v@.len() ==> v@[k]@.path != p@,
        },
{
    let n = v.len();
    let mut i: usize = 0;
    while i < n
        invariant
            0 <= i <= n,
            n == v@.len(),
            forall|k: int| 0 <= k < i ==> v@[k]@.path != p@,
        decreases n - i,
    {
        if v[i].path.eq(p) {
            return Some(i);
        }
        i = i + 1;
    }
    None
}

} // verus!
