//! Fingerprints of directory trees: a SHA-256 digest over the metadata of
//! every entry, written as 64 lowercase hex digits. Entries are hashed in
//! byte-wise order of their relative paths, directories at their own path's
//! place: `a.txt`, then `sub`, then `sub/b.txt`. Each adds its path bytes,
//! its size and modification time (8 bytes each, little-endian) and a
//! directory flag byte (1 or 0).
use vstd::prelude::*;
use vstd::bytes::{spec_u64_to_le_bytes, u64_to_le_bytes};
use vstd::utf8::encode_utf8;
use crate::entry::{
    TreeEntry, EntryView, views, canonical_order, compare_entries, entry_le, entry_lt,
    lemma_entry_le_total,
};

verus! {

/// What a fingerprint is taken of: a single file, or the entries a walk of a
/// directory found (in any order).
pub enum TreeScan {
    File { name: String, size: u64, modified: Option<u64> },
    Directory { entries: Vec<TreeEntry> },
}

/// The SHA-256 hash of a byte sequence.
pub uninterp spec fn sha256_of(data: Seq<u8>) -> Seq<u8>;

/// A lowercase hexadecimal digit.
pub open spec fn hex_digit(n: u8) -> char {
    seq!['0', '1', '2', '3', '4', '5', '6', '7', '8', '9', 'a', 'b', 'c', 'd', 'e', 'f'][n as int
        % 16]
}

/// Two lowercase hex digits per byte, high nibble first.
pub open spec fn hex_of(b: Seq<u8>) -> Seq<char>
    decreases b.len(),
{
    if b.len() == 0 {
        Seq::empty()
    } else {
        hex_of(b.drop_last()) + seq![hex_digit(b.last() / 16), hex_digit(b.last() % 16)]
    }
}

/// The bytes one entry adds to the hash: its path, its size and its
/// modification time (8 bytes each, little-endian) and a directory flag.
pub open spec fn entry_bytes(e: EntryView) -> Seq<u8> {
    e.0 + spec_u64_to_le_bytes(e.1) + spec_u64_to_le_bytes(e.2) + seq![
        if e.3 {
            1u8
        } else {
            0u8
        },
    ]
}

/// The bytes hashed for a sequence of entries, taken in the order given.
pub open spec fn hash_input(s: Seq<EntryView>) -> Seq<u8>
    decreases s.len(),
{
    if s.len() == 0 {
        Seq::empty()
    } else {
        hash_input(s.drop_last()) + entry_bytes(s.last())
    }
}

/// The digest of entries already in path order.
pub open spec fn tree_digest(s: Seq<EntryView>) -> Seq<char> {
    hex_of(sha256_of(hash_input(s)))
}

/// The bytes hashed for a single file: its name, its size and, when known,
/// its modification time.
pub open spec fn file_input(name: Seq<char>, size: u64, modified: Option<u64>) -> Seq<u8> {
    encode_utf8(name) + spec_u64_to_le_bytes(size) + match modified {
        Some(m) => spec_u64_to_le_bytes(m),
        None => Seq::empty(),
    }
}

/// A lowercase hexadecimal digit.
pub open spec fn is_hex_char(c: char) -> bool {
    ('0' <= c && c <= '9') || ('a' <= c && c <= 'f')
}

/// The shape of every digest: 64 lowercase hexadecimal digits.
pub open spec fn is_digest_text(s: Seq<char>) -> bool {
    s.len() == 64 && forall|i: int| 0 <= i < s.len() ==> is_hex_char(#[trigger] s[i])
}

/// The digest of a scan. For a directory it is taken over its entries in
/// path order, whatever order the walk found them in.
pub open spec fn scan_digest_ok(scan: TreeScan, digest: Seq<char>) -> bool {
    match scan {
        TreeScan::File { name, size, modified } => digest == hex_of(
            sha256_of(file_input(name@, size, modified)),
        ),
        TreeScan::Directory { entries } => digest == tree_digest(
            canonical_order(views(entries@)),
        ),
    }
}

proof fn lemma_hex_digit(n: u8)
    ensures
        is_hex_char(hex_digit(n)),
{
    let k = n as int % 16;
    let digits = seq!['0', '1', '2', '3', '4', '5', '6', '7', '8', '9', 'a', 'b', 'c', 'd', 'e', 'f'];
    assert(0 <= k < 16);
    assert(hex_digit(n) == digits[k]);
    assert(forall|i: int| 0 <= i < 16 ==> is_hex_char(#[trigger] digits[i]));
}

/// Hex text has two digits per byte, each a lowercase hex digit.
proof fn lemma_hex_of_shape(b: Seq<u8>)
    ensures
        hex_of(b).len() == 2 * b.len(),
        forall|i: int| 0 <= i < hex_of(b).len() ==> is_hex_char(#[trigger] hex_of(b)[i]),
    decreases b.len(),
{
    if b.len() > 0 {
        lemma_hex_of_shape(b.drop_last());
        lemma_hex_digit(b.last() / 16);
        lemma_hex_digit(b.last() % 16);
    }
}

/// Relies on sha2's `Sha256::digest`: the SHA-256 hash of `data`, 32 bytes.
#[verifier::external_body]
fn sha256(data: &Vec<u8>) -> (r: Vec<u8>)
    ensures
        r@ == sha256_of(data@),
        r@.len() == 32,
{
    <sha2::Sha256 as sha2::Digest>::digest(data.as_slice()).to_vec()
}

/// Relies on `hex::encode`: two lowercase hex digits per byte, high nibble
/// first.
#[verifier::external_body]
fn hex_encode(data: &Vec<u8>) -> (r: String)
    ensures
        r@ == hex_of(data@),
{
    hex::encode(data)
}

/// Relies on rayon's `par_sort_unstable_by`: the entries are reordered so
/// that `compare_entries`, a total order, never finds a later one before an
/// earlier one.
#[verifier::external_body]
fn sort_entries(entries: &mut Vec<TreeEntry>)
    ensures
        views(final(entries)@).to_multiset() == views(old(entries)@).to_multiset(),
        forall|i: int, j: int|
            0 <= i < j < final(entries)@.len() ==> !entry_lt(
                #[trigger] final(entries)@[j]@,
                #[trigger] final(entries)@[i]@,
            ),
{
    rayon::slice::ParallelSliceMut::par_sort_unstable_by(
        entries.as_mut_slice(),
        |a: &TreeEntry, b: &TreeEntry| compare_entries(a, b),
    );
}

fn push_bytes(out: &mut Vec<u8>, bytes: &[u8])
    ensures
        final(out)@ == old(out)@ + bytes@,
{
    let mut i: usize = 0;
    while i < bytes.len()
        invariant
            i <= bytes@.len(),
            out@ == old(out)@ + bytes@.subrange(0, i as int),
        decreases bytes@.len() - i,
    {
        out.push(bytes[i]);
        assert(bytes@.subrange(0, i + 1) =~= bytes@.subrange(0, i as int).push(bytes@[i as int]));
        i = i + 1;
    }
    assert(bytes@.subrange(0, bytes@.len() as int) =~= bytes@);
}

/// The bytes hashed for `entries`, in the order given.
pub fn hash_input_bytes(entries: &Vec<TreeEntry>) -> (r: Vec<u8>)
    ensures
        r@ == hash_input(views(entries@)),
{
    let mut out: Vec<u8> = Vec::new();
    let mut i: usize = 0;
    while i < entries.len()
        invariant
            i <= entries@.len(),
            out@ == hash_input(views(entries@.subrange(0, i as int))),
        decreases entries@.len() - i,
    {
        let e = &entries[i];
        let ghost before = out@;
        push_bytes(&mut out, e.relative_path.as_str().as_bytes());
        let size_bytes = u64_to_le_bytes(e.size);
        push_bytes(&mut out, size_bytes.as_slice());
        let time_bytes = u64_to_le_bytes(e.modified);
        push_bytes(&mut out, time_bytes.as_slice());
        out.push(if e.is_dir {
            1u8
        } else {
            0u8
        });
        proof {
            let pre = views(entries@.subrange(0, i as int));
            let post = views(entries@.subrange(0, i + 1));
            assert(post.drop_last() =~= pre);
            assert(post.last() == e@);
            assert(out@ =~= before + entry_bytes(e@));
        }
        i = i + 1;
    }
    assert(entries@.subrange(0, i as int) =~= entries@);
    out
}

/// Entries that hold those of `s` and that `entry_lt` never finds out of
/// order are `s` in its canonical order.
proof fn lemma_sorted_is_canonical(t: Seq<EntryView>, s: Seq<EntryView>)
    requires
        t.to_multiset() == s.to_multiset(),
        forall|i: int, j: int| 0 <= i < j < t.len() ==> !entry_lt(#[trigger] t[j], #[trigger] t[i]),
    ensures
        t == canonical_order(s),
{
    let leq = |x: EntryView, y: EntryView| entry_le(x, y);
    lemma_entry_le_total();
    s.lemma_sort_by_ensures(leq);
    assert forall|i: int, j: int| 0 <= i < j < t.len() implies #[trigger] leq(t[i], t[j]) by {
        assert(!entry_lt(t[j], t[i]));
        assert(leq(t[i], t[j]) || leq(t[j], t[i]));
    }
    vstd::seq_lib::lemma_sorted_unique(t, s.sort_by(leq), leq);
}

/// Hashing a concatenation hashes its two parts one after the other.
pub proof fn lemma_hash_input_concat(a: Seq<EntryView>, b: Seq<EntryView>)
    ensures
        hash_input(a + b) == hash_input(a) + hash_input(b),
    decreases b.len(),
{
    if b.len() == 0 {
        assert(a + b =~= a);
        assert(hash_input(a) + hash_input(b) =~= hash_input(a));
    } else {
        lemma_hash_input_concat(a, b.drop_last());
        assert((a + b).drop_last() =~= a + b.drop_last());
        assert(hash_input(a) + hash_input(b) =~= hash_input(a) + hash_input(b.drop_last())
            + entry_bytes(b.last()));
    }
}

proof fn lemma_hash_input_single(e: EntryView)
    ensures
        hash_input(seq![e]) == entry_bytes(e),
{
    assert(seq![e].drop_last() =~= Seq::<EntryView>::empty());
    assert(hash_input(Seq::<EntryView>::empty()) =~= Seq::<u8>::empty());
    assert(hash_input(seq![e]) =~= entry_bytes(e));
}

proof fn lemma_entry_bytes_len(e: EntryView)
    ensures
        entry_bytes(e).len() == e.0.len() + 17,
{
    vstd::bytes::lemma_auto_spec_u64_to_from_le_bytes();
}

/// A directory's fingerprint does not depend on the order in which a walk
/// reported its entries: two scans that found the same entries give the
/// same digest.
pub proof fn lemma_fingerprint_order_independent(
    a: Vec<TreeEntry>,
    b: Vec<TreeEntry>,
    digest_a: Seq<char>,
    digest_b: Seq<char>,
)
    requires
        views(a@).to_multiset() == views(b@).to_multiset(),
        scan_digest_ok(TreeScan::Directory { entries: a }, digest_a),
        scan_digest_ok(TreeScan::Directory { entries: b }, digest_b),
    ensures
        digest_a == digest_b,
{
    let leq = |x: EntryView, y: EntryView| entry_le(x, y);
    lemma_entry_le_total();
    views(a@).lemma_sort_by_ensures(leq);
    views(b@).lemma_sort_by_ensures(leq);
    vstd::seq_lib::lemma_sorted_unique(views(a@).sort_by(leq), views(b@).sort_by(leq), leq);
}

/// Changing one entry's size, modification time or directory flag, its path
/// kept, changes the bytes that are hashed.
pub proof fn lemma_metadata_change_changes_hash_input(s: Seq<EntryView>, i: int, e: EntryView)
    requires
        0 <= i < s.len(),
        e.0 == s[i].0,
        e != s[i],
    ensures
        hash_input(s.update(i, e)) != hash_input(s),
{
    let t = s.update(i, e);
    let pre = s.subrange(0, i);
    let post = s.subrange(i + 1, s.len() as int);
    assert(s =~= pre + seq![s[i]] + post);
    assert(t =~= pre + seq![e] + post);
    lemma_hash_input_concat(pre + seq![s[i]], post);
    lemma_hash_input_concat(pre + seq![e], post);
    lemma_hash_input_concat(pre, seq![s[i]]);
    lemma_hash_input_concat(pre, seq![e]);
    lemma_hash_input_single(s[i]);
    lemma_hash_input_single(e);
    let x = entry_bytes(s[i]);
    let y = entry_bytes(e);
    lemma_entry_bytes_len(s[i]);
    lemma_entry_bytes_len(e);
    let p = hash_input(pre).len() as int;
    if hash_input(t) == hash_input(s) {
        assert(hash_input(s).subrange(p, p + x.len()) =~= x);
        assert(hash_input(t).subrange(p, p + y.len()) =~= y);
        assert(x == y);
        let n = e.0.len() as int;
        vstd::bytes::lemma_auto_spec_u64_to_from_le_bytes();
        assert(x.subrange(n, n + 8) =~= spec_u64_to_le_bytes(s[i].1));
        assert(y.subrange(n, n + 8) =~= spec_u64_to_le_bytes(e.1));
        assert(x.subrange(n + 8, n + 16) =~= spec_u64_to_le_bytes(s[i].2));
        assert(y.subrange(n + 8, n + 16) =~= spec_u64_to_le_bytes(e.2));
        assert(x[n + 16] == y[n + 16]);
        assert(e.1 == s[i].1);
        assert(e.2 == s[i].2);
        assert(e.3 == s[i].3);
        assert(e == s[i]);
    }
}

/// Adding an entry (an empty directory, say) changes the bytes that are
/// hashed: they grow by at least the entry's 17 bytes of metadata.
pub proof fn lemma_added_entry_changes_hash_input(s: Seq<EntryView>, i: int, e: EntryView)
    requires
        0 <= i <= s.len(),
    ensures
        hash_input(s.insert(i, e)).len() == hash_input(s).len() + e.0.len() + 17,
        hash_input(s.insert(i, e)) != hash_input(s),
{
    let pre = s.subrange(0, i);
    let post = s.subrange(i, s.len() as int);
    assert(s =~= pre + post);
    assert(s.insert(i, e) =~= pre + seq![e] + post);
    lemma_hash_input_concat(pre, post);
    lemma_hash_input_concat(pre + seq![e], post);
    lemma_hash_input_concat(pre, seq![e]);
    lemma_hash_input_single(e);
    lemma_entry_bytes_len(e);
}

/// How many bytes a sequence of entries adds to the hash.
pub open spec fn input_len(s: Seq<EntryView>) -> int
    decreases s.len(),
{
    if s.len() == 0 {
        0
    } else {
        input_len(s.drop_last()) + s.last().0.len() + 17
    }
}

proof fn lemma_hash_input_len(s: Seq<EntryView>)
    ensures
        hash_input(s).len() == input_len(s),
    decreases s.len(),
{
    if s.len() > 0 {
        lemma_hash_input_len(s.drop_last());
        lemma_entry_bytes_len(s.last());
    }
}

/// Taking one entry out of a sequence takes its bytes out of the count.
proof fn lemma_input_len_remove(s: Seq<EntryView>, j: int)
    requires
        0 <= j < s.len(),
    ensures
        input_len(s) == input_len(s.remove(j)) + s[j].0.len() + 17,
    decreases s.len(),
{
    if j == s.len() - 1 {
        assert(s.remove(j) =~= s.drop_last());
    } else {
        lemma_input_len_remove(s.drop_last(), j);
        assert(s.remove(j).drop_last() =~= s.drop_last().remove(j));
        assert(s.remove(j).last() == s.last());
    }
}

/// The byte count does not depend on the order of the entries.
proof fn lemma_input_len_reorder(a: Seq<EntryView>, b: Seq<EntryView>)
    requires
        a.to_multiset() == b.to_multiset(),
    ensures
        input_len(a) == input_len(b),
    decreases a.len(),
{
    broadcast use vstd::seq_lib::group_to_multiset_ensures, vstd::multiset::group_multiset_axioms;

    if a.len() == 0 {
        assert(a.to_multiset().len() == 0);
        assert(b.to_multiset().len() == b.len());
        assert(b.len() == 0);
    } else {
        let x = a.last();
        assert(a.to_multiset().count(x) > 0);
        assert(b.to_multiset().count(x) > 0);
        assert(b.contains(x));
        let j = choose|j: int| 0 <= j < b.len() && b[j] == x;
        assert(a.drop_last() =~= a.remove(a.len() - 1));
        assert(a.drop_last().to_multiset() == a.to_multiset().remove(x));
        assert(b.remove(j).to_multiset() == b.to_multiset().remove(x));
        lemma_input_len_reorder(a.drop_last(), b.remove(j));
        lemma_input_len_remove(b, j);
    }
}

/// Renaming an entry to a path of another length changes the bytes that are
/// hashed, whatever order the entries are taken in.
pub proof fn lemma_renamed_entry_changes_hash_input(
    s: Seq<EntryView>,
    i: int,
    e: EntryView,
    before: Seq<EntryView>,
    after: Seq<EntryView>,
)
    requires
        0 <= i < s.len(),
        e.0.len() != s[i].0.len(),
        before.to_multiset() == s.to_multiset(),
        after.to_multiset() == s.update(i, e).to_multiset(),
    ensures
        hash_input(before) != hash_input(after),
{
    let t = s.update(i, e);
    lemma_input_len_reorder(before, s);
    lemma_input_len_reorder(after, t);
    lemma_input_len_remove(s, i);
    lemma_input_len_remove(t, i);
    assert(t.remove(i) =~= s.remove(i));
    lemma_hash_input_len(before);
    lemma_hash_input_len(after);
}

/// The digest of a directory's entries: they are sorted by path, then hashed.
pub fn fingerprint_entries(entries: Vec<TreeEntry>) -> (r: String)
    ensures
        scan_digest_ok(TreeScan::Directory { entries }, r@),
        is_digest_text(r@),
{
    let ghost given = views(entries@);
    let mut sorted = entries;
    sort_entries(&mut sorted);
    let input = hash_input_bytes(&sorted);
    let hash = sha256(&input);
    let r = hex_encode(&hash);
    proof {
        let t = views(sorted@);
        assert forall|i: int, j: int| 0 <= i < j < t.len() implies !entry_lt(
            #[trigger] t[j],
            #[trigger] t[i],
        ) by {
            assert(t[j] == sorted@[j]@);
            assert(t[i] == sorted@[i]@);
        }
        lemma_sorted_is_canonical(t, given);
        lemma_hex_of_shape(hash@);
    }
    r
}

/// The digest of a single file: its name, size and (when known) modification
/// time.
pub fn fingerprint_file(name: &String, size: u64, modified: Option<u64>) -> (r: String)
    ensures
        r@ == hex_of(sha256_of(file_input(name@, size, modified))),
        is_digest_text(r@),
{
    let mut input: Vec<u8> = Vec::new();
    push_bytes(&mut input, name.as_str().as_bytes());
    let size_bytes = u64_to_le_bytes(size);
    push_bytes(&mut input, size_bytes.as_slice());
    match modified {
        Some(m) => {
            let time_bytes = u64_to_le_bytes(m);
            push_bytes(&mut input, time_bytes.as_slice());
        },
        None => {},
    }
    assert(input@ =~= file_input(name@, size, modified));
    let hash = sha256(&input);
    proof {
        lemma_hex_of_shape(hash@);
    }
    hex_encode(&hash)
}

/// The fingerprint of a file or of a directory tree: 64 lowercase hex
/// digits.
pub fn calculate_hash(scan: TreeScan) -> (r: String)
    ensures
        scan_digest_ok(scan, r@),
        is_digest_text(r@),
{
    match scan {
        TreeScan::File { name, size, modified } => fingerprint_file(&name, size, modified),
        TreeScan::Directory { entries } => fingerprint_entries(entries),
    }
}

} // verus!
