//! Metadata of a prepared statement, as the server reports it.

use vstd::prelude::*;

verus! {

/// Where one partition-key component stands: `index` among the bind markers,
/// `sequence` within the partition key.
#[derive(Debug, Clone, Copy, PartialEq, Eq, Structural)]
pub struct PartitionKeyIndex {
    pub index: u16,
    pub sequence: u16,
}

/// The table that a column belongs to.
#[derive(Debug, Clone, PartialEq, Eq)]
pub struct TableSpec {
    pub ks_name: String,
    pub table_name: String,
}

/// One bind marker's column.
#[derive(Debug, Clone, PartialEq, Eq)]
pub struct ColumnSpec {
    pub table_spec: TableSpec,
    pub name: String,
}

/// Column layout of a prepared statement and the bind markers that make up
/// its partition key.
#[derive(Debug, Clone, PartialEq, Eq)]
pub struct PreparedMetadata {
    pub col_count: usize,
    /// Sorted by `index`.
    pub pk_indexes: Vec<PartitionKeyIndex>,
    pub col_specs: Vec<ColumnSpec>,
}

/// Key indexes as the server sends them: strictly ascending by `index`, and
/// the `sequence` numbers a permutation of `0..len`.
pub open spec fn pk_indexes_wf(pk: Seq<PartitionKeyIndex>) -> bool {
    &&& forall|i: int, j: int| 0 <= i < j < pk.len() ==> #[trigger] pk[i].index < #[trigger] pk[j].index
    &&& forall|i: int| 0 <= i < pk.len() ==> (#[trigger] pk[i].sequence as int) < pk.len()
    &&& forall|i: int, j: int|
        0 <= i < pk.len() && 0 <= j < pk.len() && i != j ==> #[trigger] pk[i].sequence
            != #[trigger] pk[j].sequence
    &&& forall|k: int| 0 <= k < pk.len() ==> #[trigger] sequence_taken(pk, k)
}

/// Some key index has `sequence` `k`.
pub open spec fn sequence_taken(pk: Seq<PartitionKeyIndex>, k: int) -> bool {
    exists|j: int| 0 <= j < pk.len() && pk[j].sequence == k
}

impl PreparedMetadata {
    pub open spec fn wf(&self) -> bool {
        pk_indexes_wf(self.pk_indexes@)
    }

    /// Whether the key indexes are as the server sends them.
    pub fn is_well_formed(&self) -> (r: bool)
        ensures
            r == self.wf(),
    {
        let pk = &self.pk_indexes;
        let n = pk.len();
        let mut i: usize = 1;
        while i < n
            invariant
                1 <= i || n == 0,
                n == pk@.len(),
                self.pk_indexes@ == pk@,
                forall|a: int, b: int| 0 <= a < b < i && b < n ==> #[trigger] pk@[a].index < #[trigger] pk@[b].index,
            decreases n - i,
        {
            if pk[i - 1].index >= pk[i].index {
                assert(!(pk@[i - 1].index < pk@[i as int].index));
                assert(!pk_indexes_wf(pk@));
                return false;
            }
            i += 1;
        }
        let mut seen: Vec<bool> = Vec::new();
        while seen.len() < n
            invariant
                seen@.len() <= n,
                forall|k: int| 0 <= k < seen@.len() ==> !#[trigger] seen@[k],
            decreases n - seen@.len(),
        {
            seen.push(false);
        }
        let mut j: usize = 0;
        while j < n
            invariant
                n == pk@.len(),
                self.pk_indexes@ == pk@,
                seen@.len() == n,
                j <= n,
                forall|a: int| 0 <= a < j ==> (#[trigger] pk@[a].sequence as int) < n,
                forall|a: int, b: int|
                    0 <= a < j && 0 <= b < j && a != b ==> #[trigger] pk@[a].sequence
                        != #[trigger] pk@[b].sequence,
                forall|k: int|
                    0 <= k < n ==> (#[trigger] seen@[k] <==> exists|a: int|
                        0 <= a < j && pk@[a].sequence == k),
            decreases n - j,
        {
            let s = pk[j].sequence as usize;
            if s >= n {
                assert(!((pk@[j as int].sequence as int) < n));
                assert(!pk_indexes_wf(pk@));
                return false;
            }
            if seen[s] {
                let ghost a = choose|a: int| 0 <= a < j && pk@[a].sequence == s;
                assert(pk@[a].sequence == pk@[j as int].sequence);
                assert(a != j);
                assert(!pk_indexes_wf(pk@));
                return false;
            }
            seen.set(s, true);
            assert forall|k: int|
                0 <= k < n implies (#[trigger] seen@[k] <==> exists|a: int|
                    0 <= a < j + 1 && pk@[a].sequence == k) by {
                if k == s {
                    assert(pk@[j as int].sequence == k);
                }
            }
            j += 1;
        }
        let mut k: usize = 0;
        while k < n
            invariant
                n == pk@.len(),
                self.pk_indexes@ == pk@,
                seen@.len() == n,
                k <= n,
                forall|c: int| 0 <= c < n ==> (#[trigger] seen@[c] <==> sequence_taken(pk@, c)),
                forall|c: int| 0 <= c < k ==> #[trigger] sequence_taken(pk@, c),
            decreases n - k,
        {
            if !seen[k] {
                assert(!sequence_taken(pk@, k as int));
                assert(!pk_indexes_wf(pk@));
                return false;
            }
            k += 1;
        }
        true
    }
}

} // verus!
