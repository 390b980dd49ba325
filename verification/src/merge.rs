//! Joining adjacent batches of a render queue, so that one draw call draws
//! what several entries next to each other would draw.
//!
//! An entry links to the entry before it when both ranges hold instances,
//! both have the same draw function and its range starts where the other
//! one ends. A run of linked entries becomes one range on its first entry;
//! the others are left with an empty range. An entry with an empty range
//! takes no part.
use vstd::prelude::*;
use crate::instance::ShapeVertex;
use crate::queue::{batch_items, is_partition, RenderPhaseItem, ShapeBatch};

verus! {

/// Whether an entry with draw function `draw_function`, whose range ends at
/// `end`, is followed by `next`: same draw function, a range that holds
/// instances and starts at `end`.
pub open spec fn spec_follows(draw_function: u32, end: u32, next: RenderPhaseItem) -> bool {
    &&& next.draw_function == draw_function
    &&& !next.batch.spec_is_empty()
    &&& next.batch.start == end
}

/// Whether `next` links to `prev`, the entry before it.
pub open spec fn links(prev: RenderPhaseItem, next: RenderPhaseItem) -> bool {
    &&& !prev.batch.spec_is_empty()
    &&& spec_follows(prev.draw_function, prev.batch.end, next)
}

/// Whether the entry at `p` is absorbed by the run that it continues.
pub open spec fn is_absorbed(items: Seq<RenderPhaseItem>, p: int) -> bool {
    0 < p < items.len() && links(items[p - 1], items[p])
}

/// Position of the last entry of the run of linked entries that goes
/// through `p`.
pub open spec fn run_last(items: Seq<RenderPhaseItem>, p: int) -> int
    decreases items.len() - p,
{
    if 0 <= p && p + 1 < items.len() && links(items[p], items[p + 1]) {
        run_last(items, p + 1)
    } else {
        p
    }
}

/// The entry at `p` after joining: an absorbed entry keeps an empty range
/// at its end; any other entry has its range extended to the end of its
/// run.
pub open spec fn joined_item(items: Seq<RenderPhaseItem>, p: int) -> RenderPhaseItem {
    let item = items[p];
    if is_absorbed(items, p) {
        RenderPhaseItem {
            sort_key: item.sort_key,
            draw_function: item.draw_function,
            pipeline: item.pipeline,
            batch: ShapeBatch { start: item.batch.end, end: item.batch.end },
        }
    } else {
        RenderPhaseItem {
            sort_key: item.sort_key,
            draw_function: item.draw_function,
            pipeline: item.pipeline,
            batch: ShapeBatch {
                start: item.batch.start,
                end: items[run_last(items, p)].batch.end,
            },
        }
    }
}

/// The render queue after joining adjacent batches.
pub open spec fn joined(items: Seq<RenderPhaseItem>) -> Seq<RenderPhaseItem> {
    Seq::new(items.len(), |p: int| joined_item(items, p))
}

/// Number of instances that the ranges of `items` hold together.
pub open spec fn total_instances(items: Seq<RenderPhaseItem>) -> nat
    decreases items.len(),
{
    if items.len() == 0 {
        0
    } else {
        items[0].batch.spec_len() + total_instances(items.skip(1))
    }
}

/// Whether an entry with draw function `draw_function`, whose range ends at
/// `end`, is followed by `next`.
pub fn follows(draw_function: u32, end: u32, next: &RenderPhaseItem) -> (yes: bool)
    ensures
        yes == spec_follows(draw_function, end, *next),
{
    next.draw_function == draw_function && !next.batch.is_empty() && next.batch.start == end
}

/// Joins the adjacent batches of a render queue, in one pass.
///
/// Each run of linked entries is drawn by its first entry, whose range is
/// extended to the end of the run; the other entries of the run are left
/// with an empty range. Nothing else changes, and no entry moves.
pub fn join_adjacent_batches(items: &mut Vec<RenderPhaseItem>)
    ensures
        final(items)@ == joined(old(items)@),
{
    let mut index: usize = 0;
    let len = items.len();
    while index < len
        invariant
            len == old(items)@.len(),
            items@.len() == len,
            index <= len,
            !is_absorbed(old(items)@, index as int),
            forall|q: int| 0 <= q < index ==> #[trigger] items@[q] == joined_item(old(items)@, q),
            forall|q: int| index <= q < len ==> #[trigger] items@[q] == old(items)@[q],
        decreases len - index,
    {
        let item_index = index;
        let item = items[index];
        index += 1;
        if !item.batch.is_empty() {
            let mut range = item.batch;
            let mut joins = false;
            while index < len && follows(item.draw_function, range.end, &items[index])
                invariant
                    len == old(items)@.len(),
                    items@.len() == len,
                    item_index < index <= len,
                    item == old(items)@[item_index as int],
                    !item.batch.spec_is_empty(),
                    !is_absorbed(old(items)@, item_index as int),
                    range.start == item.batch.start,
                    range.end == old(items)@[index - 1].batch.end,
                    !old(items)@[index - 1].batch.spec_is_empty(),
                    old(items)@[index - 1].draw_function == item.draw_function,
                    run_last(old(items)@, item_index as int) == run_last(
                        old(items)@,
                        index - 1,
                    ),
                    !joins ==> index == item_index + 1,
                    forall|q: int|
                        0 <= q < item_index ==> #[trigger] items@[q] == joined_item(
                            old(items)@,
                            q,
                        ),
                    items@[item_index as int] == item,
                    forall|q: int|
                        item_index < q < index ==> #[trigger] items@[q] == joined_item(
                            old(items)@,
                            q,
                        ),
                    forall|q: int| index <= q < len ==> #[trigger] items@[q] == old(items)@[q],
                decreases len - index,
            {
                let next = items[index];
                range.end = next.batch.end;
                items.set(
                    index,
                    RenderPhaseItem {
                        sort_key: next.sort_key,
                        draw_function: next.draw_function,
                        pipeline: next.pipeline,
                        batch: ShapeBatch { start: next.batch.end, end: next.batch.end },
                    },
                );
                index += 1;
                joins = true;
            }
            if joins {
                //we are doing a concat
                items.set(
                    item_index,
                    RenderPhaseItem {
                        sort_key: item.sort_key,
                        draw_function: item.draw_function,
                        pipeline: item.pipeline,
                        batch: range,
                    },
                );
            }
        }
    }
}

/// The run through `p` ends at or after `p`, within the queue, and every
/// entry of it after `p` links to the one before it.
pub proof fn lemma_run_last(items: Seq<RenderPhaseItem>, p: int)
    requires
        0 <= p < items.len(),
    ensures
        p <= run_last(items, p) < items.len(),
        forall|m: int| p < m <= run_last(items, p) ==> links(items[m - 1], #[trigger] items[m]),
        run_last(items, p) + 1 < items.len() ==> !links(
            items[run_last(items, p)],
            items[run_last(items, p) + 1],
        ),
        items[p].batch.spec_is_empty() ==> run_last(items, p) == p,
        !items[p].batch.spec_is_empty() ==> items[p].batch.end <= items[run_last(
            items,
            p,
        )].batch.end,
    decreases items.len() - p,
{
    if p + 1 < items.len() && links(items[p], items[p + 1]) {
        lemma_run_last(items, p + 1);
    }
}

/// Joining keeps the length of the queue and, of each entry, everything
/// but the range.
pub proof fn lemma_joined_keeps_entries(items: Seq<RenderPhaseItem>, p: int)
    requires
        0 <= p < items.len(),
    ensures
        joined(items).len() == items.len(),
        joined(items)[p].sort_key == items[p].sort_key,
        joined(items)[p].draw_function == items[p].draw_function,
        joined(items)[p].pipeline == items[p].pipeline,
{
}

/// No range is joined across draw functions: an entry whose range changes
/// is either absorbed, and then has the draw function of the entry before
/// it, or is extended to the end of a run of entries that all have its
/// draw function, are all absorbed, and each start where the one before
/// ends.
pub proof fn lemma_join_respects_draw_functions(items: Seq<RenderPhaseItem>, p: int)
    requires
        0 <= p < items.len(),
        joined(items)[p].batch != items[p].batch,
    ensures
        is_absorbed(items, p) ==> items[p - 1].draw_function == items[p].draw_function,
        !is_absorbed(items, p) ==> {
            let last = run_last(items, p);
            &&& p < last < items.len()
            &&& joined(items)[p].batch == (ShapeBatch {
                start: items[p].batch.start,
                end: items[last].batch.end,
            })
            &&& forall|m: int|
                p < m <= last ==> {
                    &&& (#[trigger] items[m]).draw_function == items[p].draw_function
                    &&& items[m].batch.start == items[m - 1].batch.end
                    &&& is_absorbed(items, m)
                }
        },
{
    lemma_run_last(items, p);
    if !is_absorbed(items, p) {
        let last = run_last(items, p);
        assert forall|m: int| p < m <= last implies (#[trigger] items[m]).draw_function
            == items[p].draw_function by {
            lemma_run_draw_function(items, p, m);
        }
    }
}

/// The entries of the run that starts at `p` have the draw function of
/// `p`.
proof fn lemma_run_draw_function(items: Seq<RenderPhaseItem>, p: int, m: int)
    requires
        0 <= p < m <= run_last(items, p),
        p < items.len(),
    ensures
        items[m].draw_function == items[p].draw_function,
    decreases m - p,
{
    lemma_run_last(items, p);
    if p < m - 1 {
        lemma_run_draw_function(items, p, m - 1);
    }
}

/// Joining an already joined queue changes nothing.
pub proof fn lemma_join_idempotent(items: Seq<RenderPhaseItem>)
    ensures
        joined(joined(items)) == joined(items),
{
    // In a joined queue no entry links to the entry before it: an absorbed
    // entry is empty, and an entry that was next to one that did not link
    // to it has kept its end. So each run is one entry long.
}

/// The joined queue of the entries after the first is the joined queue
/// after its first entry, but for the entry that the first one absorbs.
proof fn lemma_joined_skip(items: Seq<RenderPhaseItem>, q: int)
    requires
        items.len() > 0,
        0 <= q < items.len() - 1,
        q > 0 || !links(items[0], items[1]),
    ensures
        joined(items.skip(1))[q] == joined(items)[q + 1],
{
    lemma_run_last_skip(items, q);
    lemma_run_last(items.skip(1), q);
}

/// Runs do not depend on the entries before them.
proof fn lemma_run_last_skip(items: Seq<RenderPhaseItem>, q: int)
    requires
        items.len() > 0,
        0 <= q < items.len() - 1,
    ensures
        run_last(items.skip(1), q) + 1 == run_last(items, q + 1),
    decreases items.len() - q,
{
    let rest = items.skip(1);
    if q + 1 < rest.len() && links(rest[q], rest[q + 1]) {
        lemma_run_last_skip(items, q + 1);
    }
}

/// Joining keeps the number of instances that the queue draws, and all of
/// them are drawn by entries that were not absorbed: an absorbed entry
/// holds none.
pub proof fn lemma_join_preserves_total(items: Seq<RenderPhaseItem>)
    ensures
        total_instances(joined(items)) == total_instances(items),
        forall|p: int|
            is_absorbed(items, p) ==> (#[trigger] joined(items)[p]).batch.spec_len() == 0,
    decreases items.len(),
{
    if items.len() > 0 {
        let rest = items.skip(1);
        let once = joined(items);
        let rest_once = joined(rest);
        lemma_join_preserves_total(rest);
        lemma_run_last(items, 0);
        if items.len() > 1 && links(items[0], items[1]) {
            lemma_run_last_skip(items, 0);
            assert(once.skip(1).skip(1) =~= rest_once.skip(1)) by {
                assert forall|q: int| 0 <= q < rest_once.len() - 1 implies once.skip(1).skip(
                    1,
                )[q] == rest_once.skip(1)[q] by {
                    lemma_joined_skip(items, q + 1);
                }
            }
            assert(total_instances(once.skip(1)) == total_instances(once.skip(1).skip(1)));
        } else {
            assert(once.skip(1) =~= rest_once) by {
                assert forall|q: int| 0 <= q < rest_once.len() implies once.skip(1)[q]
                    == rest_once[q] by {
                    lemma_joined_skip(items, q);
                }
            }
        }
    }
}

/// In the queue entries of the batches of one instance buffer, every run
/// goes on to the last entry.
proof fn lemma_queued_run(
    vertices: Seq<ShapeVertex>,
    batches: Seq<ShapeBatch>,
    draw_function: u32,
    pipeline: usize,
    p: int,
)
    requires
        is_partition(vertices, batches),
        0 <= p < batches.len(),
    ensures
        run_last(batch_items(vertices, batches, draw_function, pipeline), p) == batches.len() - 1,
    decreases batches.len() - p,
{
    if p + 1 < batches.len() {
        lemma_queued_run(vertices, batches, draw_function, pipeline, p + 1);
    }
}

/// What was queued for one instance buffer is joined into one draw call:
/// the first entry draws every instance, and the other entries are left
/// with an empty range.
pub proof fn lemma_join_of_queued(
    vertices: Seq<ShapeVertex>,
    batches: Seq<ShapeBatch>,
    draw_function: u32,
    pipeline: usize,
)
    requires
        is_partition(vertices, batches),
        batches.len() > 0,
    ensures
        joined(batch_items(vertices, batches, draw_function, pipeline))[0].batch == (ShapeBatch {
            start: 0,
            end: vertices.len() as u32,
        }),
        forall|k: int|
            0 < k < batches.len() ==> (#[trigger] joined(
                batch_items(vertices, batches, draw_function, pipeline),
            )[k]).batch.spec_is_empty(),
{
    lemma_queued_run(vertices, batches, draw_function, pipeline, 0);
}

} // verus!
