//! The size of a tree: the bytes of its files, directories counting nothing.
use vstd::prelude::*;
use crate::entry::TreeEntry;
use crate::fingerprint::TreeScan;

verus! {

/// The total size of the files among `s`.
pub open spec fn file_bytes(s: Seq<TreeEntry>) -> int
    decreases s.len(),
{
    if s.len() == 0 {
        0
    } else {
        file_bytes(s.drop_last()) + if s.last().is_dir {
            0
        } else {
            s.last().size as int
        }
    }
}

/// The size of what was scanned: a file's own size, or the total size of
/// the files in a directory tree.
pub open spec fn scan_size(scan: TreeScan) -> int {
    match scan {
        TreeScan::File { size, .. } => size as int,
        TreeScan::Directory { entries } => file_bytes(entries@),
    }
}

proof fn lemma_file_bytes_prefix(s: Seq<TreeEntry>, i: int)
    requires
        0 <= i <= s.len(),
    ensures
        file_bytes(s.subrange(0, i)) <= file_bytes(s),
    decreases s.len() - i,
{
    if i < s.len() {
        lemma_file_bytes_prefix(s, i + 1);
        assert(s.subrange(0, i + 1).drop_last() =~= s.subrange(0, i));
    } else {
        assert(s.subrange(0, i) =~= s);
    }
}

/// The size of a file, or the sum of the file sizes in a directory tree;
/// None when the sum does not fit in 64 bits.
pub fn calculate_directory_size(scan: &TreeScan) -> (r: Option<u64>)
    ensures
        scan_size(*scan) <= u64::MAX ==> r == Some(scan_size(*scan) as u64),
        scan_size(*scan) > u64::MAX ==> r is None,
{
    match scan {
        TreeScan::File { size, .. } => Some(*size),
        TreeScan::Directory { entries } => {
            let mut total: u64 = 0;
            let mut i: usize = 0;
            while i < entries.len()
                invariant
                    i <= entries@.len(),
                    scan_size(*scan) == file_bytes(entries@),
                    total == file_bytes(entries@.subrange(0, i as int)),
                decreases entries@.len() - i,
            {
                let e = &entries[i];
                assert(entries@.subrange(0, i + 1).drop_last() =~= entries@.subrange(0, i as int));
                if !e.is_dir {
                    if e.size > u64::MAX - total {
                        proof {
                            let post = entries@.subrange(0, i + 1);
                            assert(post.last() == *e);
                            assert(file_bytes(post) == total + e.size);
                            lemma_file_bytes_prefix(entries@, i + 1);
                        }
                        return None;
                    }
                    total = total + e.size;
                }
                i = i + 1;
            }
            assert(entries@.subrange(0, i as int) =~= entries@);
            Some(total)
        },
    }
}

} // verus!
