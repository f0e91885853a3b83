//! Partition keys as the cluster's partitioner reads them.
//!
//! A key of one column is that column's value as it is. A key of several
//! columns is, for each non-null component in key order, a big-endian 16-bit
//! length, the value, and a zero byte.

use vstd::prelude::*;

use bytes::Bytes;

use crate::buffer::be_u16;
use crate::buffer::buf_contents;
use crate::buffer::buf_extend;
use crate::buffer::buf_freeze;
use crate::buffer::buf_new;
use crate::buffer::buf_put_u16;
use crate::buffer::buf_put_u8;
use crate::buffer::buf_reserve;
use crate::buffer::bytes_contents;
use crate::metadata::pk_indexes_wf;
use crate::metadata::sequence_taken;
use crate::metadata::PartitionKeyIndex;
use crate::slots::slot_contents;
use crate::slots::slots_get;
use crate::slots::slots_new;
use crate::slots::slots_set;
use crate::values::values_within_limits;
use crate::values::MAX_VALUE_COUNT;
use crate::values::SerializedValues;

verus! {

/// Longest component that the 16-bit length prefix can describe.
pub const MAX_COMPONENT_LEN: usize = 65535;

/// Why no partition key could be computed.
#[derive(Debug, Clone, Copy, PartialEq, Eq, PartialOrd, Ord, Structural)]
pub enum PartitionKeyError {
    /// A key component's bind marker (first field) has no value; the second
    /// field is the number of values given.
    NoPkIndexValue(u16, i16),
    /// A key component is longer than its length prefix can describe.
    ValueTooLong(usize),
}

/// The value of the key component with sequence number `k`, `None` where it
/// is null.
pub open spec fn component_at(
    pk: Seq<PartitionKeyIndex>,
    vals: Seq<Option<Seq<u8>>>,
    k: int,
) -> Option<Seq<u8>> {
    if sequence_taken(pk, k) {
        let j = choose|j: int| 0 <= j < pk.len() && pk[j].sequence == k;
        vals[pk[j].index as int]
    } else {
        None
    }
}

/// The key components in key order.
pub open spec fn key_components(
    pk: Seq<PartitionKeyIndex>,
    vals: Seq<Option<Seq<u8>>>,
) -> Seq<Option<Seq<u8>>> {
    Seq::new(pk.len(), |k: int| component_at(pk, vals, k))
}

/// One component of a composite key: length, bytes, zero; nothing for a null.
pub open spec fn frame(c: Option<Seq<u8>>) -> Seq<u8> {
    match c {
        Some(v) => be_u16(v.len() as u16) + v + seq![0u8],
        None => Seq::empty(),
    }
}

/// The components framed one after the other.
pub open spec fn encode_components(cs: Seq<Option<Seq<u8>>>) -> Seq<u8>
    decreases cs.len(),
{
    if cs.len() == 0 {
        Seq::empty()
    } else {
        encode_components(cs.drop_last()) + frame(cs.last())
    }
}

/// The length of the first component that is too long to frame, if any.
pub open spec fn first_too_long(cs: Seq<Option<Seq<u8>>>) -> Option<nat>
    decreases cs.len(),
{
    if cs.len() == 0 {
        None
    } else {
        match first_too_long(cs.drop_last()) {
            Some(n) => Some(n),
            None => match cs.last() {
                Some(v) => if v.len() > MAX_COMPONENT_LEN {
                    Some(v.len())
                } else {
                    None
                },
                None => None,
            },
        }
    }
}

/// The bind-marker index of the first key component, in the order given, for
/// which fewer than `n` values leave no value.
pub open spec fn first_missing(pk: Seq<PartitionKeyIndex>, n: nat) -> Option<u16>
    decreases pk.len(),
{
    if pk.len() == 0 {
        None
    } else {
        match first_missing(pk.drop_last(), n) {
            Some(i) => Some(i),
            None => if pk.last().index >= n {
                Some(pk.last().index)
            } else {
                None
            },
        }
    }
}

/// The partition key of the bound values `vals`, or why there is none.
pub open spec fn partition_key(pk: Seq<PartitionKeyIndex>, vals: Seq<Option<Seq<u8>>>) -> Result<
    Seq<u8>,
    PartitionKeyError,
> {
    match first_missing(pk, vals.len()) {
        Some(i) => Err(PartitionKeyError::NoPkIndexValue(i, vals.len() as i16)),
        None => if pk.len() == 1 {
            Ok(
                match vals[pk[0].index as int] {
                    Some(v) => v,
                    None => Seq::empty(),
                },
            )
        } else {
            match first_too_long(key_components(pk, vals)) {
                Some(n) => Err(PartitionKeyError::ValueTooLong(n as usize)),
                None => Ok(encode_components(key_components(pk, vals))),
            }
        },
    }
}

/// Whether `r` is the outcome that `partition_key` describes.
pub open spec fn is_partition_key_result(
    r: Result<Bytes, PartitionKeyError>,
    pk: Seq<PartitionKeyIndex>,
    vals: Seq<Option<Seq<u8>>>,
) -> bool {
    match r {
        Ok(b) => partition_key(pk, vals) == Ok::<Seq<u8>, PartitionKeyError>(bytes_contents(b)),
        Err(e) => partition_key(pk, vals) == Err::<Seq<u8>, PartitionKeyError>(e),
    }
}

proof fn lemma_first_missing_prefix(pk: Seq<PartitionKeyIndex>, n: nat, m: int)
    requires
        0 <= m <= pk.len(),
        first_missing(pk.subrange(0, m), n) is Some,
    ensures
        first_missing(pk, n) == first_missing(pk.subrange(0, m), n),
    decreases pk.len() - m,
{
    if m < pk.len() {
        assert(pk.subrange(0, m + 1).drop_last() =~= pk.subrange(0, m));
        lemma_first_missing_prefix(pk, n, m + 1);
    } else {
        assert(pk.subrange(0, m) =~= pk);
    }
}

proof fn lemma_first_too_long_prefix(cs: Seq<Option<Seq<u8>>>, m: int)
    requires
        0 <= m <= cs.len(),
        first_too_long(cs.subrange(0, m)) is Some,
    ensures
        first_too_long(cs) == first_too_long(cs.subrange(0, m)),
    decreases cs.len() - m,
{
    if m < cs.len() {
        assert(cs.subrange(0, m + 1).drop_last() =~= cs.subrange(0, m));
        lemma_first_too_long_prefix(cs, m + 1);
    } else {
        assert(cs.subrange(0, m) =~= cs);
    }
}

/// The key component with sequence number `pk[j].sequence` is the value
/// bound at `pk[j].index`.
pub proof fn lemma_component_of_index(
    pk: Seq<PartitionKeyIndex>,
    vals: Seq<Option<Seq<u8>>>,
    j: int,
)
    requires
        pk_indexes_wf(pk),
        0 <= j < pk.len(),
    ensures
        component_at(pk, vals, pk[j].sequence as int) == vals[pk[j].index as int],
{
    let k = pk[j].sequence as int;
    assert(sequence_taken(pk, k));
    let j2 = choose|j2: int| 0 <= j2 < pk.len() && pk[j2].sequence == k;
    if j2 != j {
        assert(pk[j2].sequence != pk[j].sequence);
    }
}

proof fn lemma_no_missing(pk: Seq<PartitionKeyIndex>, n: nat)
    requires
        forall|j: int| 0 <= j < pk.len() ==> (#[trigger] pk[j].index as int) < n,
    ensures
        first_missing(pk, n) is None,
    decreases pk.len(),
{
    if pk.len() > 0 {
        lemma_no_missing(pk.drop_last(), n);
    }
}

/// Framing distributes over concatenation.
pub proof fn lemma_encode_append(a: Seq<Option<Seq<u8>>>, b: Seq<Option<Seq<u8>>>)
    ensures
        encode_components(a + b) == encode_components(a) + encode_components(b),
    decreases b.len(),
{
    if b.len() == 0 {
        assert(a + b =~= a);
        assert(encode_components(b) =~= Seq::<u8>::empty());
        assert(encode_components(a) + Seq::<u8>::empty() =~= encode_components(a));
    } else {
        assert((a + b).drop_last() =~= a + b.drop_last());
        lemma_encode_append(a, b.drop_last());
        assert(encode_components(a) + encode_components(b.drop_last()) + frame(b.last())
            =~= encode_components(a) + (encode_components(b.drop_last()) + frame(b.last())));
    }
}

/// A key of one column is the bound value itself, with no framing; a null
/// gives the empty key.
pub proof fn lemma_single_column_key(pk: Seq<PartitionKeyIndex>, vals: Seq<Option<Seq<u8>>>)
    requires
        pk_indexes_wf(pk),
        pk.len() == 1,
        (pk[0].index as int) < vals.len(),
    ensures
        partition_key(pk, vals) == Ok::<Seq<u8>, PartitionKeyError>(
            match vals[pk[0].index as int] {
                Some(v) => v,
                None => Seq::empty(),
            },
        ),
{
    lemma_no_missing(pk, vals.len());
}

/// A key of several columns whose values are all there and short enough is
/// the concatenation, in key order, of length, value and zero byte for each
/// non-null component, whatever order the bind markers come in.
pub proof fn lemma_composite_key(
    pk: Seq<PartitionKeyIndex>,
    vals: Seq<Option<Seq<u8>>>,
    cs: Seq<Option<Seq<u8>>>,
)
    requires
        pk_indexes_wf(pk),
        pk.len() >= 2,
        forall|j: int| 0 <= j < pk.len() ==> (#[trigger] pk[j].index as int) < vals.len(),
        cs.len() == pk.len(),
        forall|j: int|
            0 <= j < pk.len() ==> cs[#[trigger] pk[j].sequence as int] == vals[pk[j].index as int],
        forall|k: int|
            0 <= k < cs.len() && #[trigger] cs[k] is Some ==> cs[k]->0.len() <= MAX_COMPONENT_LEN,
    ensures
        partition_key(pk, vals) == Ok::<Seq<u8>, PartitionKeyError>(encode_components(cs)),
{
    lemma_no_missing(pk, vals.len());
    lemma_components_determined(pk, vals, cs);
    lemma_no_too_long(cs);
}

proof fn lemma_components_determined(
    pk: Seq<PartitionKeyIndex>,
    vals: Seq<Option<Seq<u8>>>,
    cs: Seq<Option<Seq<u8>>>,
)
    requires
        pk_indexes_wf(pk),
        cs.len() == pk.len(),
        forall|j: int|
            0 <= j < pk.len() ==> cs[#[trigger] pk[j].sequence as int] == vals[pk[j].index as int],
    ensures
        key_components(pk, vals) == cs,
{
    assert forall|k: int| 0 <= k < cs.len() implies #[trigger] key_components(pk, vals)[k]
        == cs[k] by {
        assert(sequence_taken(pk, k));
        let j = choose|j: int| 0 <= j < pk.len() && pk[j].sequence == k;
        lemma_component_of_index(pk, vals, j);
    }
    assert(key_components(pk, vals) =~= cs);
}

proof fn lemma_no_too_long(cs: Seq<Option<Seq<u8>>>)
    requires
        forall|k: int|
            0 <= k < cs.len() && #[trigger] cs[k] is Some ==> cs[k]->0.len() <= MAX_COMPONENT_LEN,
    ensures
        first_too_long(cs) is None,
    decreases cs.len(),
{
    if cs.len() > 0 {
        assert forall|k: int|
            0 <= k < cs.drop_last().len() && #[trigger] cs.drop_last()[k] is Some implies cs.drop_last()[k]->0.len()
            <= MAX_COMPONENT_LEN by {
            assert(cs.drop_last()[k] == cs[k]);
        }
        lemma_no_too_long(cs.drop_last());
        assert(cs.last() == cs[cs.len() - 1]);
    }
}

/// The key depends on which value fills each key position, not on the
/// order of the bind markers: two sets of key indexes that assign the same
/// values to the same sequence numbers give the same key.
pub proof fn lemma_bind_order_irrelevant(
    pk1: Seq<PartitionKeyIndex>,
    vals1: Seq<Option<Seq<u8>>>,
    pk2: Seq<PartitionKeyIndex>,
    vals2: Seq<Option<Seq<u8>>>,
)
    requires
        pk_indexes_wf(pk1),
        pk_indexes_wf(pk2),
        pk1.len() == pk2.len(),
        forall|j: int| 0 <= j < pk1.len() ==> (#[trigger] pk1[j].index as int) < vals1.len(),
        forall|j: int| 0 <= j < pk2.len() ==> (#[trigger] pk2[j].index as int) < vals2.len(),
        forall|j1: int, j2: int|
            0 <= j1 < pk1.len() && 0 <= j2 < pk2.len() && #[trigger] pk1[j1].sequence
                == #[trigger] pk2[j2].sequence ==> vals1[pk1[j1].index as int]
                == vals2[pk2[j2].index as int],
    ensures
        partition_key(pk1, vals1) == partition_key(pk2, vals2),
{
    lemma_no_missing(pk1, vals1.len());
    lemma_no_missing(pk2, vals2.len());
    let cs = key_components(pk1, vals1);
    assert forall|j: int| 0 <= j < pk2.len() implies cs[#[trigger] pk2[j].sequence as int]
        == vals2[pk2[j].index as int] by {
        let k = pk2[j].sequence as int;
        assert(sequence_taken(pk1, k));
        let j1 = choose|j1: int| 0 <= j1 < pk1.len() && pk1[j1].sequence == k;
        lemma_component_of_index(pk1, vals1, j1);
    }
    lemma_components_determined(pk2, vals2, cs);
    if pk1.len() == 1 {
        assert(pk1[0].sequence == 0 && pk2[0].sequence == 0);
    }
}

/// A key component whose bind marker has no value fails the computation
/// with that marker's index and the number of values given, when every
/// component before it has a value.
pub proof fn lemma_missing_value_reported(
    pk: Seq<PartitionKeyIndex>,
    vals: Seq<Option<Seq<u8>>>,
    j: int,
)
    requires
        0 <= j < pk.len(),
        (pk[j].index as int) >= vals.len(),
        forall|i: int| 0 <= i < j ==> (#[trigger] pk[i].index as int) < vals.len(),
    ensures
        partition_key(pk, vals) == Err::<Seq<u8>, PartitionKeyError>(
            PartitionKeyError::NoPkIndexValue(pk[j].index, vals.len() as i16),
        ),
{
    let prefix = pk.subrange(0, j);
    assert forall|i: int| 0 <= i < prefix.len() implies (#[trigger] prefix[i].index as int)
        < vals.len() by {
        assert(prefix[i] == pk[i]);
    }
    lemma_no_missing(prefix, vals.len());
    assert(pk.subrange(0, j + 1).drop_last() =~= prefix);
    lemma_first_missing_prefix(pk, vals.len(), j + 1);
}

/// A null component adds no bytes: the key is what the components before
/// it and after it give.
pub proof fn lemma_null_component_skipped(cs: Seq<Option<Seq<u8>>>, k: int)
    requires
        0 <= k < cs.len(),
    ensures
        encode_components(cs.update(k, None)) == encode_components(cs.subrange(0, k))
            + encode_components(cs.subrange(k + 1, cs.len() as int)),
{
    let a = cs.subrange(0, k);
    let b = cs.subrange(k + 1, cs.len() as int);
    let mid = seq![None::<Seq<u8>>];
    assert(cs.update(k, None) =~= (a + mid) + b);
    lemma_encode_append(a + mid, b);
    lemma_encode_append(a, mid);
    assert(mid.drop_last() =~= Seq::<Option<Seq<u8>>>::empty());
    assert(mid.last() is None);
    assert(encode_components(mid.drop_last()) =~= Seq::<u8>::empty());
    assert(frame(mid.last()) =~= Seq::<u8>::empty());
    assert(encode_components(mid) =~= Seq::<u8>::empty());
    assert(encode_components(a) + Seq::<u8>::empty() =~= encode_components(a));
}

/// Computes the partition key of the values `values` for the key indexes
/// `pk`, as `partition_key` describes it.
pub fn compute_partition_key_of(pk: &Vec<PartitionKeyIndex>, values: &SerializedValues) -> (r:
    Result<Bytes, PartitionKeyError>)
    requires
        pk_indexes_wf(pk@),
    ensures
        is_partition_key_result(r, pk@, values@),
{
    let count = values.len();
    let ghost vals = values@;
    let mut buf = buf_new();
    let n = pk.len();
    if n == 1 {
        let first = pk[0];
        assert(pk@.drop_last() =~= Seq::<PartitionKeyIndex>::empty());
        assert(first_missing(pk@.drop_last(), vals.len()) is None);
        match values.get(first.index as usize) {
            None => {
                return Err(PartitionKeyError::NoPkIndexValue(first.index, count));
            },
            Some(v) => {
                if let Some(v) = v {
                    assert(vals[first.index as int] is Some);
                    buf_extend(&mut buf, v);
                }
                let r = buf_freeze(buf);
                assert(bytes_contents(r) =~= match vals[pk@[0].index as int] {
                    Some(v) => v,
                    None => Seq::empty(),
                });
                return Ok(r);
            },
        }
    }
    // Values arrive in bind-marker order, components leave in key order: each
    // slot holds the position of the non-null value that fills it. A value is
    // found by its position in constant time, so one pass over the key
    // indexes suffices. Every key component has its own value below the value
    // count, which bounds the number of components and so the key's length.

    if n > 0 {
        assert(sequence_taken(pk@, n - 1));
    }
    let mut slots = slots_new(n);
    let mut buf_size: usize = 0;
    let mut i: usize = 0;
    while i < n
        invariant
            pk_indexes_wf(pk@),
            n == pk@.len(),
            n != 1,
            vals == values@,
            values_within_limits(vals),
            count as int == vals.len(),
            i <= n,
            first_missing(pk@.subrange(0, i as int), vals.len()) is None,
            i > 0 ==> pk@[i - 1].index >= i - 1,
            i > 0 ==> pk@[i - 1].index < vals.len(),
            slot_contents(slots).len() == n,
            forall|j: int|
                0 <= j < i ==> slot_contents(slots)[#[trigger] pk@[j].sequence as int] == (if vals[pk@[j].index as int] is Some {
                    Some(pk@[j].index as usize)
                } else {
                    None::<usize>
                }),
            forall|k: int|
                0 <= k < n && (forall|j: int| 0 <= j < i ==> #[trigger] pk@[j].sequence != k)
                    ==> #[trigger] slot_contents(slots)[k] is None,
            buf_size <= i * (MAX_COMPONENT_LEN + 3),
        decreases n - i,
    {
        let pk_index = pk[i];
        assert(pk@.subrange(0, i + 1).drop_last() =~= pk@.subrange(0, i as int));
        if i > 0 {
            assert(pk@[i - 1].index < pk@[i as int].index);
        }
        match values.get(pk_index.index as usize) {
            None => {
                proof {
                    lemma_first_missing_prefix(pk@, vals.len(), i + 1);
                }
                return Err(PartitionKeyError::NoPkIndexValue(pk_index.index, count));
            },
            Some(v) => {
                let ghost before = slot_contents(slots);
                assert(pk@[i as int].index >= i);
                assert(i * (MAX_COMPONENT_LEN + 3) + (MAX_COMPONENT_LEN + 3) == (i + 1) * (
                MAX_COMPONENT_LEN + 3)) by (nonlinear_arith);
                assert((i + 1) * (MAX_COMPONENT_LEN + 3) <= 2147483646) by (nonlinear_arith)
                    requires
                        i + 1 <= MAX_VALUE_COUNT,
                ;
                if let Some(v) = v {
                    slots_set(&mut slots, pk_index.sequence as usize, Some(pk_index.index as usize));
                    // A component that long fails below: reserve nothing for it.
                    if v.len() <= MAX_COMPONENT_LEN {
                        buf_size = buf_size + (v.len() + 3);
                    }
                }
                assert forall|j: int| 0 <= j < i + 1 implies slot_contents(slots)[#[trigger] pk@[j].sequence as int] == (if vals[pk@[j].index as int] is Some {
                    Some(pk@[j].index as usize)
                } else {
                    None::<usize>
                }) by {
                    if j < i {
                        assert(pk@[j].sequence != pk@[i as int].sequence);
                    }
                }
                assert forall|k: int|
                    0 <= k < n && (forall|j: int| 0 <= j < i + 1 ==> #[trigger] pk@[j].sequence != k)
                    implies #[trigger] slot_contents(slots)[k] is None by {
                    assert(pk@[i as int].sequence != k);
                }
            },
        }
        i = i + 1;
    }
    assert(pk@.subrange(0, n as int) =~= pk@);
    let ghost comps = key_components(pk@, vals);
    assert forall|k: int| 0 <= k < n implies match #[trigger] slot_contents(slots)[k] {
        Some(p) => p < vals.len() && vals[p as int] is Some && comps[k] == vals[p as int],
        None => comps[k] is None,
    } by {
        assert(sequence_taken(pk@, k));
        let j = choose|j: int| 0 <= j < pk@.len() && pk@[j].sequence == k;
        lemma_component_of_index(pk@, vals, j);
    }
    assert(n <= MAX_VALUE_COUNT) by {
        if n > 0 {
            assert(pk@[n - 1].index < vals.len());
        }
    }
    assert(buf_size <= n * (MAX_COMPONENT_LEN + 3)) by (nonlinear_arith)
        requires
            buf_size <= i * (MAX_COMPONENT_LEN + 3),
            i == n,
    ;
    assert(n * (MAX_COMPONENT_LEN + 3) <= 2147483646) by (nonlinear_arith)
        requires
            n <= MAX_VALUE_COUNT,
    ;
    buf_reserve(&mut buf, buf_size);

    let mut k: usize = 0;
    while k < n
        invariant
            n == comps.len(),
            n <= MAX_VALUE_COUNT,
            vals == values@,
            values_within_limits(vals),
            k <= n,
            slot_contents(slots).len() == n,
            forall|k: int| 0 <= k < n ==> match #[trigger] slot_contents(slots)[k] {
                Some(p) => p < vals.len() && vals[p as int] is Some && comps[k] == vals[p as int],
                None => comps[k] is None,
            },
            n != 1,
            comps == key_components(pk@, vals),
            first_missing(pk@, vals.len()) is None,
            first_too_long(comps.subrange(0, k as int)) is None,
            buf_contents(buf) == encode_components(comps.subrange(0, k as int)),
            buf_contents(buf).len() <= k * (MAX_COMPONENT_LEN + 3),
        decreases n - k,
    {
        assert(comps.subrange(0, k + 1).drop_last() =~= comps.subrange(0, k as int));
        assert(k * (MAX_COMPONENT_LEN + 3) + (MAX_COMPONENT_LEN + 3) == (k + 1) * (
        MAX_COMPONENT_LEN + 3)) by (nonlinear_arith);
        assert((k + 1) * (MAX_COMPONENT_LEN + 3) <= 2147483646) by (nonlinear_arith)
            requires
                k + 1 <= MAX_VALUE_COUNT,
        ;
        if let Some(p) = slots_get(&slots, k) {
            if let Some(Some(v)) = values.get(p) {
                if v.len() > MAX_COMPONENT_LEN {
                    assert(first_too_long(comps.subrange(0, k + 1)) == Some(v@.len()));
                    proof {
                        lemma_first_too_long_prefix(comps, k + 1);
                    }
                    return Err(PartitionKeyError::ValueTooLong(v.len()));
                }
                buf_put_u16(&mut buf, v.len() as u16);
                buf_extend(&mut buf, v);
                buf_put_u8(&mut buf, 0);
                assert(buf_contents(buf) =~= encode_components(comps.subrange(0, k + 1)));
            }
        } else {
            assert(buf_contents(buf) =~= encode_components(comps.subrange(0, k + 1)));
        }
        k = k + 1;
    }
    assert(comps.subrange(0, n as int) =~= comps);
    Ok(buf_freeze(buf))
}

} // verus!
