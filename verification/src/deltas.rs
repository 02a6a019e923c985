use vstd::prelude::*;
use crate::buffer::buffer_after_drain;

verus! {

/// All batches joined in order, with nothing added and nothing lost.
pub open spec fn concat_all(batches: Seq<Seq<u8>>) -> Seq<u8>
    decreases batches.len(),
{
    if batches.len() == 0 {
        Seq::empty()
    } else {
        batches.first() + concat_all(batches.drop_first())
    }
}

/// The pending content after appending each delta in arrival order.
pub open spec fn append_each(pending: Seq<u8>, deltas: Seq<Seq<u8>>) -> Seq<u8>
    decreases deltas.len(),
{
    if deltas.len() == 0 {
        pending
    } else {
        append_each(pending + deltas.first(), deltas.drop_first())
    }
}

/// The durable file after a flush tick: the old bytes followed by whatever
/// the tick drained.
pub open spec fn flushed_file(file: Seq<u8>, pending: Seq<u8>) -> Seq<u8> {
    file + pending
}

pub proof fn lemma_concat_all_push(batches: Seq<Seq<u8>>, batch: Seq<u8>)
    ensures
        concat_all(batches.push(batch)) == concat_all(batches) + batch,
    decreases batches.len(),
{
    if batches.len() == 0 {
        assert(batches.push(batch).drop_first() =~= Seq::<Seq<u8>>::empty());
        assert(concat_all(batches.push(batch).drop_first()) == Seq::<u8>::empty());
        assert(concat_all(batches.push(batch)) == batch + Seq::<u8>::empty());
        assert(concat_all(batches.push(batch)) =~= concat_all(batches) + batch);
    } else {
        assert(batches.push(batch).drop_first() =~= batches.drop_first().push(batch));
        lemma_concat_all_push(batches.drop_first(), batch);
        assert(concat_all(batches.push(batch)) =~= concat_all(batches) + batch);
    }
}

/// Appending deltas one at a time accumulates exactly their concatenation:
/// no loss, no duplication, no reordering.
pub proof fn lemma_append_each_collects(pending: Seq<u8>, deltas: Seq<Seq<u8>>)
    ensures
        append_each(pending, deltas) == pending + concat_all(deltas),
    decreases deltas.len(),
{
    if deltas.len() == 0 {
        assert(append_each(pending, deltas) =~= pending + concat_all(deltas));
    } else {
        lemma_append_each_collects(pending + deltas.first(), deltas.drop_first());
        assert(append_each(pending, deltas) =~= pending + concat_all(deltas));
    }
}

/// Deltas appended strictly between two consecutive flush ticks are exactly
/// what the second tick adds: starting a first tick with nothing pending, the
/// file after the second tick equals the file before the first tick followed
/// by all those deltas in arrival order.
pub proof fn lemma_file_after_two_ticks(file_before: Seq<u8>, deltas: Seq<Seq<u8>>)
    ensures
        flushed_file(
            flushed_file(file_before, Seq::empty()),
            append_each(buffer_after_drain(Seq::empty()), deltas),
        ) == file_before + concat_all(deltas),
{
    lemma_append_each_collects(Seq::empty(), deltas);
    assert(flushed_file(
        flushed_file(file_before, Seq::empty()),
        append_each(buffer_after_drain(Seq::empty()), deltas),
    ) =~= file_before + concat_all(deltas));
}

/// The general no-loss, no-duplication law: whatever was already pending at
/// the first tick lands in the file with that tick, and deltas appended after
/// it land exactly once with the second tick, in arrival order.
pub proof fn lemma_no_delta_lost(file_before: Seq<u8>, pending: Seq<u8>, deltas: Seq<Seq<u8>>)
    ensures
        flushed_file(
            flushed_file(file_before, pending),
            append_each(buffer_after_drain(pending), deltas),
        ) == file_before + pending + concat_all(deltas),
{
    lemma_append_each_collects(Seq::empty(), deltas);
    assert(flushed_file(
        flushed_file(file_before, pending),
        append_each(buffer_after_drain(pending), deltas),
    ) =~= file_before + pending + concat_all(deltas));
}

} // verus!
