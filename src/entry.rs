//! Tree entries as the walker reports them, and the byte-wise order on
//! their relative paths.
use vstd::prelude::*;
use vstd::relations::total_ordering;
use vstd::utf8::encode_utf8;
use core::cmp::Ordering;
use crate::paths::{forward_slashes, normalize_separators};

verus! {

/// One descendant of a scanned tree: its root-relative path (separated by
/// `/`), its size, its modification time in seconds since the epoch (0 when
/// unknown) and whether it is a directory.
pub struct TreeEntry {
    pub relative_path: String,
    pub size: u64,
    pub modified: u64,
    pub is_dir: bool,
}

/// What a fingerprint sees of an entry: the UTF-8 bytes of its path, its
/// size, its modification time and its directory flag.
pub type EntryView = (Seq<u8>, u64, u64, bool);

impl View for TreeEntry {
    type V = EntryView;

    open spec fn view(&self) -> EntryView {
        (encode_utf8(self.relative_path@), self.size, self.modified, self.is_dir)
    }
}

/// The views of a sequence of entries, in the same order.
pub open spec fn views(s: Seq<TreeEntry>) -> Seq<EntryView> {
    s.map_values(|e: TreeEntry| e@)
}

/// Byte-wise lexicographic order: `a` comes strictly before `b`.
pub open spec fn bytes_lt(a: Seq<u8>, b: Seq<u8>) -> bool
    decreases a.len(),
{
    if b.len() == 0 {
        false
    } else if a.len() == 0 {
        true
    } else if a[0] != b[0] {
        a[0] < b[0]
    } else {
        bytes_lt(a.drop_first(), b.drop_first())
    }
}

/// The metadata of two entries with the same path, compared field by field.
pub open spec fn meta_le(x: EntryView, y: EntryView) -> bool {
    x.1 < y.1 || (x.1 == y.1 && (x.2 < y.2 || (x.2 == y.2 && (!x.3 || y.3))))
}

/// A total order on entry views: by path first, then by metadata.
pub open spec fn entry_le(x: EntryView, y: EntryView) -> bool {
    bytes_lt(x.0, y.0) || (x.0 == y.0 && meta_le(x, y))
}

/// `x` comes strictly before `y` in the `entry_le` order.
pub open spec fn entry_lt(x: EntryView, y: EntryView) -> bool {
    entry_le(x, y) && x != y
}

/// The one arrangement of `s` ordered by `entry_le`: by path, and entries
/// that share a path (which no real tree has) by their metadata.
pub open spec fn canonical_order(s: Seq<EntryView>) -> Seq<EntryView> {
    s.sort_by(|x: EntryView, y: EntryView| entry_le(x, y))
}

/// No byte sequence comes before itself.
pub proof fn lemma_bytes_lt_irreflexive(a: Seq<u8>)
    ensures
        !bytes_lt(a, a),
    decreases a.len(),
{
    if a.len() > 0 {
        lemma_bytes_lt_irreflexive(a.drop_first());
    }
}

/// Two byte sequences never come each before the other.
pub proof fn lemma_bytes_lt_asymmetric(a: Seq<u8>, b: Seq<u8>)
    ensures
        !(bytes_lt(a, b) && bytes_lt(b, a)),
    decreases a.len(),
{
    if a.len() > 0 && b.len() > 0 && a[0] == b[0] {
        lemma_bytes_lt_asymmetric(a.drop_first(), b.drop_first());
    }
}

/// The byte-wise order is transitive.
pub proof fn lemma_bytes_lt_transitive(a: Seq<u8>, b: Seq<u8>, c: Seq<u8>)
    requires
        bytes_lt(a, b),
        bytes_lt(b, c),
    ensures
        bytes_lt(a, c),
    decreases a.len(),
{
    if a.len() > 0 && a[0] == b[0] && b[0] == c[0] {
        lemma_bytes_lt_transitive(a.drop_first(), b.drop_first(), c.drop_first());
    }
}

/// Of two byte sequences one comes first, or they are equal.
pub proof fn lemma_bytes_lt_trichotomy(a: Seq<u8>, b: Seq<u8>)
    ensures
        bytes_lt(a, b) || bytes_lt(b, a) || a == b,
    decreases a.len(),
{
    if a.len() > 0 && b.len() > 0 && a[0] == b[0] {
        lemma_bytes_lt_trichotomy(a.drop_first(), b.drop_first());
        if a.drop_first() == b.drop_first() {
            assert(a =~= seq![a[0]] + a.drop_first());
            assert(b =~= seq![b[0]] + b.drop_first());
        }
    } else if a.len() == 0 && b.len() == 0 {
        assert(a =~= b);
    }
}

/// Two sequences that agree on their first `i` bytes compare as their
/// remainders do.
pub proof fn lemma_bytes_lt_common_prefix(a: Seq<u8>, b: Seq<u8>, i: int)
    requires
        0 <= i <= a.len(),
        i <= b.len(),
        a.subrange(0, i) == b.subrange(0, i),
    ensures
        bytes_lt(a, b) == bytes_lt(a.subrange(i, a.len() as int), b.subrange(i, b.len() as int)),
    decreases i,
{
    if i > 0 {
        assert(a[0] == a.subrange(0, i)[0]);
        assert(b[0] == b.subrange(0, i)[0]);
        assert(a.drop_first().subrange(0, i - 1) =~= a.subrange(0, i).drop_first());
        assert(b.drop_first().subrange(0, i - 1) =~= b.subrange(0, i).drop_first());
        lemma_bytes_lt_common_prefix(a.drop_first(), b.drop_first(), i - 1);
        assert(a.drop_first().subrange(i - 1, a.len() - 1) =~= a.subrange(i, a.len() as int));
        assert(b.drop_first().subrange(i - 1, b.len() - 1) =~= b.subrange(i, b.len() as int));
    } else {
        assert(a.subrange(0, a.len() as int) =~= a);
        assert(b.subrange(0, b.len() as int) =~= b);
    }
}

/// `entry_le` is a total order on entry views.
pub proof fn lemma_entry_le_total()
    ensures
        total_ordering(|x: EntryView, y: EntryView| entry_le(x, y)),
{
    let leq = |x: EntryView, y: EntryView| entry_le(x, y);
    assert forall|x: EntryView| #[trigger] leq(x, x) by {
        lemma_bytes_lt_irreflexive(x.0);
    }
    assert forall|x: EntryView, y: EntryView| #[trigger] leq(x, y) && #[trigger] leq(y, x) implies x
        == y by {
        lemma_bytes_lt_asymmetric(x.0, y.0);
        lemma_bytes_lt_irreflexive(x.0);
    }
    assert forall|x: EntryView, y: EntryView, z: EntryView| #[trigger] leq(x, y) && #[trigger] leq(
        y,
        z,
    ) implies leq(x, z) by {
        if bytes_lt(x.0, y.0) && bytes_lt(y.0, z.0) {
            lemma_bytes_lt_transitive(x.0, y.0, z.0);
        }
    }
    assert forall|x: EntryView, y: EntryView| #[trigger] leq(x, y) || #[trigger] leq(y, x) by {
        lemma_bytes_lt_trichotomy(x.0, y.0);
    }
}

/// The entry a walk reports for the path `rel` under its root, with `\`
/// separators rewritten as `/`. A directory's size is recorded as 0, whatever
/// its metadata says. None for the root itself (an empty path), which is no
/// entry of its own tree.
pub fn tree_entry(rel: &str, size: u64, modified: u64, is_dir: bool) -> (r: Option<TreeEntry>)
    ensures
        rel@.len() == 0 ==> r is None,
        rel@.len() > 0 ==> (r matches Some(e) && e.relative_path@ == forward_slashes(rel@)
            && e.size == (if is_dir {
            0
        } else {
            size
        }) && e.modified == modified && e.is_dir == is_dir),
{
    if rel.is_empty() {
        None
    } else {
        let size = if is_dir {
            0
        } else {
            size
        };
        Some(TreeEntry { relative_path: normalize_separators(rel), size, modified, is_dir })
    }
}

/// Compares the paths of two entries byte by byte, as `str`'s ordering does.
pub fn compare_paths(a: &TreeEntry, b: &TreeEntry) -> (r: Ordering)
    ensures
        (r == Ordering::Less) == bytes_lt(a@.0, b@.0),
        (r == Ordering::Greater) == bytes_lt(b@.0, a@.0),
        (r == Ordering::Equal) == (a@.0 == b@.0),
{
    let x = a.relative_path.as_str().as_bytes();
    let y = b.relative_path.as_str().as_bytes();
    let ghost xs = a@.0;
    let ghost ys = b@.0;
    assert(x@ == xs);
    assert(y@ == ys);
    let mut i: usize = 0;
    while i < x.len() && i < y.len() && x[i] == y[i]
        invariant
            x@ == xs,
            y@ == ys,
            i <= x@.len(),
            i <= y@.len(),
            xs.subrange(0, i as int) == ys.subrange(0, i as int),
        decreases x@.len() - i,
    {
        assert(xs.subrange(0, i + 1) =~= xs.subrange(0, i as int).push(xs[i as int]));
        assert(ys.subrange(0, i + 1) =~= ys.subrange(0, i as int).push(ys[i as int]));
        i = i + 1;
    }
    proof {
        lemma_bytes_lt_common_prefix(xs, ys, i as int);
        lemma_bytes_lt_common_prefix(ys, xs, i as int);
        let xr = xs.subrange(i as int, xs.len() as int);
        let yr = ys.subrange(i as int, ys.len() as int);
        if xr.len() == 0 && yr.len() == 0 {
            assert(xs =~= xs.subrange(0, i as int));
            assert(ys =~= ys.subrange(0, i as int));
        }
        if xr.len() > 0 && yr.len() > 0 {
            assert(xr[0] == xs[i as int]);
            assert(yr[0] == ys[i as int]);
        }
        if xs == ys {
            lemma_bytes_lt_irreflexive(xs);
        }
    }
    if i < x.len() && i < y.len() {
        if x[i] < y[i] {
            Ordering::Less
        } else {
            Ordering::Greater
        }
    } else if i < y.len() {
        Ordering::Less
    } else if i < x.len() {
        Ordering::Greater
    } else {
        Ordering::Equal
    }
}

/// Compares two entries by path, byte by byte as `str`'s ordering does, and
/// entries with the same path by size, modification time and directory flag.
pub fn compare_entries(a: &TreeEntry, b: &TreeEntry) -> (r: Ordering)
    ensures
        (r == Ordering::Less) == entry_lt(a@, b@),
        (r == Ordering::Greater) == entry_lt(b@, a@),
        (r == Ordering::Equal) == (a@ == b@),
{
    proof {
        lemma_bytes_lt_asymmetric(a@.0, b@.0);
        lemma_bytes_lt_irreflexive(a@.0);
        lemma_bytes_lt_irreflexive(b@.0);
    }
    match compare_paths(a, b) {
        Ordering::Less => Ordering::Less,
        Ordering::Greater => Ordering::Greater,
        Ordering::Equal => {
            if a.size != b.size {
                if a.size < b.size {
                    Ordering::Less
                } else {
                    Ordering::Greater
                }
            } else if a.modified != b.modified {
                if a.modified < b.modified {
                    Ordering::Less
                } else {
                    Ordering::Greater
                }
            } else if a.is_dir != b.is_dir {
                if !a.is_dir {
                    Ordering::Less
                } else {
                    Ordering::Greater
                }
            } else {
                Ordering::Equal
            }
        },
    }
}

} // verus!
