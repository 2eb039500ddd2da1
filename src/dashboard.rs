//! Totals over the catalog for the dashboard.
use vstd::prelude::*;
use crate::snapshot::Backup;

verus! {

/// How many backups there are and how many bytes they take.
pub struct DashboardStats {
    pub backup_count: usize,
    pub total_size: u64,
    pub is_ready: bool,
}

/// The total recorded size of the backups.
pub open spec fn recorded_bytes(s: Seq<Backup>) -> int
    decreases s.len(),
{
    if s.len() == 0 {
        0
    } else {
        recorded_bytes(s.drop_last()) + s.last().size as int
    }
}

proof fn lemma_recorded_bytes_prefix(s: Seq<Backup>, i: int)
    requires
        0 <= i <= s.len(),
    ensures
        recorded_bytes(s.subrange(0, i)) <= recorded_bytes(s),
    decreases s.len() - i,
{
    if i < s.len() {
        lemma_recorded_bytes_prefix(s, i + 1);
        assert(s.subrange(0, i + 1).drop_last() =~= s.subrange(0, i));
    } else {
        assert(s.subrange(0, i) =~= s);
    }
}

/// The dashboard's figures: the number of backups and their total size.
/// None when the total does not fit in 64 bits.
pub fn get_dashboard_stats(backups: &Vec<Backup>) -> (r: Option<DashboardStats>)
    ensures
        recorded_bytes(backups@) <= u64::MAX ==> (r matches Some(st) && st.backup_count
            == backups@.len() && st.total_size == recorded_bytes(backups@) && st.is_ready),
        recorded_bytes(backups@) > u64::MAX ==> r is None,
{
    let mut total: u64 = 0;
    let mut i: usize = 0;
    while i < backups.len()
        invariant
            i <= backups@.len(),
            total == recorded_bytes(backups@.subrange(0, i as int)),
        decreases backups@.len() - i,
    {
        let size = backups[i].size;
        let ghost post = backups@.subrange(0, i + 1);
        assert(post.drop_last() =~= backups@.subrange(0, i as int));
        assert(post.last().size == size);
        if size > u64::MAX - total {
            proof {
                lemma_recorded_bytes_prefix(backups@, i + 1);
            }
            return None;
        }
        total = total + size;
        i = i + 1;
    }
    assert(backups@.subrange(0, i as int) =~= backups@);
    Some(DashboardStats { backup_count: backups.len(), total_size: total, is_ready: true })
}

} // verus!
