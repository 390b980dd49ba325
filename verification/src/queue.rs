//! Sorting the instances of a frame by depth and cutting them into
//! batches: maximal runs of instances with one depth key, one draw call
//! each.
use vstd::prelude::*;
use crate::instance::ShapeVertex;

verus! {

/// The key by which depth bits are ordered: ascending keys are ascending
/// depths, with the negative NaNs before negative infinity and the positive
/// NaNs after positive infinity.
///
/// A set sign bit flips all the bits, a clear one only the sign bit.
pub open spec fn spec_depth_order_key(z: u32) -> u32 {
    if z >= 0x8000_0000 {
        (0xffff_ffff - z) as u32
    } else {
        (z + 0x8000_0000) as u32
    }
}

/// The key by which depth bits are ordered.
pub fn depth_order_key(z: u32) -> (key: u32)
    ensures
        key == spec_depth_order_key(z),
{
    if z >= 0x8000_0000 {
        0xffff_ffff - z
    } else {
        z + 0x8000_0000
    }
}

/// The order key in bits: all the bits of `z` flipped where its sign bit is
/// set, only the sign bit flipped where it is clear.
pub proof fn lemma_depth_order_key_bits(z: u32)
    ensures
        z & 0x8000_0000 != 0 ==> spec_depth_order_key(z) == !z,
        z & 0x8000_0000 == 0 ==> spec_depth_order_key(z) == z ^ 0x8000_0000,
{
    assert(z & 0x8000_0000 != 0 ==> z >= 0x8000_0000 && !z == 0xffff_ffff - z) by (bit_vector);
    assert(z & 0x8000_0000 == 0 ==> z < 0x8000_0000 && z ^ 0x8000_0000 == z + 0x8000_0000)
        by (bit_vector);
}

/// Different depth bits have different order keys.
pub proof fn lemma_depth_order_key_injective(a: u32, b: u32)
    ensures
        spec_depth_order_key(a) == spec_depth_order_key(b) <==> a == b,
{
}

impl ShapeVertex {
    /// The key by which the instance is ordered.
    pub open spec fn spec_order_key(&self) -> u32 {
        spec_depth_order_key(self.spec_z_index())
    }

    /// The key by which the instance is ordered.
    pub fn order_key(&self) -> (key: u32)
        ensures
            key == self.spec_order_key(),
    {
        depth_order_key(self.z_index())
    }
}

/// Whether the order keys of `vertices` ascend.
pub open spec fn sorted_by_depth(vertices: Seq<ShapeVertex>) -> bool {
    forall|i: int, j: int|
        0 <= i <= j < vertices.len() ==> (#[trigger] vertices[i]).spec_order_key() <= (
        #[trigger] vertices[j]).spec_order_key()
}

/// The instances of `vertices` at depth `z`, in their order.
pub open spec fn at_depth(vertices: Seq<ShapeVertex>, z: u32) -> Seq<ShapeVertex> {
    vertices.filter(|v: ShapeVertex| v.spec_z_index() == z)
}

/// Whether `sorted` is `vertices` sorted by depth, the instances of one
/// depth in the order that they had.
pub open spec fn is_depth_sort_of(sorted: Seq<ShapeVertex>, vertices: Seq<ShapeVertex>) -> bool {
    &&& sorted.len() == vertices.len()
    &&& sorted.to_multiset() == vertices.to_multiset()
    &&& sorted_by_depth(sorted)
    &&& forall|z: u32| #[trigger] at_depth(sorted, z) == at_depth(vertices, z)
}

/// `radsort::sort_by_key` on the slice of `vertices`, with the order key
/// of each instance as its key.
///
/// The crate sorts a slice by an unsigned key in ascending order and does
/// not reorder elements with equal keys; it only moves the elements. With
/// a key function that returns the same key whenever it is asked, as this
/// one does, it does not panic.
#[verifier::external_body]
fn radix_sort_by_depth(vertices: &mut Vec<ShapeVertex>)
    ensures
        is_depth_sort_of(final(vertices)@, old(vertices)@),
{
    radsort::sort_by_key(vertices.as_mut_slice(), |vertex| vertex.order_key());
}

/// Sorts the instances by depth, keeping the order of those of one depth.
pub fn sort_shapes(vertices: &mut Vec<ShapeVertex>)
    ensures
        is_depth_sort_of(final(vertices)@, old(vertices)@),
{
    radix_sort_by_depth(vertices);
}

/// A draw range: the instances from `start` up to, not including, `end`
/// of the frame's instance buffer, drawn by one instanced draw call.
#[derive(Clone, Copy, Debug, PartialEq, Eq, Hash, Structural)]
pub struct ShapeBatch {
    pub start: u32,
    pub end: u32,
}

impl ShapeBatch {
    /// Whether the range holds no instance.
    pub open spec fn spec_is_empty(self) -> bool {
        self.end <= self.start
    }

    /// Number of instances in the range.
    pub open spec fn spec_len(self) -> nat {
        if self.end <= self.start {
            0
        } else {
            (self.end - self.start) as nat
        }
    }

    /// Whether the range holds no instance.
    pub fn is_empty(self) -> (empty: bool)
        ensures
            empty == self.spec_is_empty(),
    {
        self.end <= self.start
    }

    /// Number of instances in the range.
    pub fn len(self) -> (n: u32)
        ensures
            n == self.spec_len(),
    {
        if self.end <= self.start {
            0
        } else {
            self.end - self.start
        }
    }
}

/// Whether `batches` cuts the first `upto` instances of `vertices` into
/// runs of one depth key: the ranges are not empty, the first starts at 0,
/// each starts where the one before it ends, the last ends at `upto`, the
/// instances of one range have the same depth bits, and the ranges next to
/// each other have different ones.
pub open spec fn cuts_prefix(
    vertices: Seq<ShapeVertex>,
    batches: Seq<ShapeBatch>,
    upto: int,
) -> bool {
    &&& 0 <= upto <= vertices.len()
    &&& batches.len() == 0 <==> upto == 0
    &&& batches.len() > 0 ==> batches[0].start == 0 && batches.last().end == upto
    &&& forall|k: int|
        0 <= k < batches.len() ==> (#[trigger] batches[k]).start < batches[k].end <= upto
    &&& forall|k: int|
        0 <= k < batches.len() - 1 ==> (#[trigger] batches[k]).end == batches[k + 1].start
    &&& forall|k: int, i: int|
        0 <= k < batches.len() && batches[k].start <= i < batches[k].end ==> (
        #[trigger] vertices[i]).spec_z_index() == vertices[(
        #[trigger] batches[k]).start as int].spec_z_index()
    &&& forall|k: int|
        0 <= k < batches.len() - 1 ==> vertices[(
        #[trigger] batches[k]).start as int].spec_z_index() != vertices[batches[k
            + 1].start as int].spec_z_index()
}

/// Whether `batches` is the cut of `vertices` into maximal runs of one
/// depth key.
pub open spec fn is_partition(vertices: Seq<ShapeVertex>, batches: Seq<ShapeBatch>) -> bool {
    cuts_prefix(vertices, batches, vertices.len() as int)
}

/// Cuts the instances into maximal runs of one depth key, in order.
///
/// The instance buffer is indexed by 32-bit numbers on the GPU.
pub fn plan_batches(vertices: &Vec<ShapeVertex>) -> (batches: Vec<ShapeBatch>)
    requires
        vertices@.len() <= u32::MAX,
    ensures
        is_partition(vertices@, batches@),
{
    let mut batches: Vec<ShapeBatch> = Vec::new();
    let mut index: usize = 0;
    let len = vertices.len();
    while index < len
        invariant
            len == vertices@.len(),
            len <= u32::MAX,
            cuts_prefix(vertices@, batches@, index as int),
            0 < index < len ==> vertices@[index as int].spec_z_index()
                != vertices@[batches@.last().start as int].spec_z_index(),
        decreases len - index,
    {
        let start = index;
        let z = vertices[index].z_index();
        index += 1;
        //these will always be batched with shapes with the same z index
        while index < len && vertices[index].z_index() == z
            invariant
                len == vertices@.len(),
                start < index <= len,
                z == vertices@[start as int].spec_z_index(),
                forall|i: int| start <= i < index ==> (#[trigger] vertices@[i]).spec_z_index() == z,
            decreases len - index,
        {
            index += 1;
        }
        batches.push(ShapeBatch { start: start as u32, end: index as u32 });
    }
    batches
}

/// Every instance lies in exactly one range of the partition.
pub proof fn lemma_partition_covers(
    vertices: Seq<ShapeVertex>,
    batches: Seq<ShapeBatch>,
    i: int,
) -> (k: int)
    requires
        is_partition(vertices, batches),
        0 <= i < vertices.len(),
    ensures
        0 <= k < batches.len(),
        batches[k].start <= i < batches[k].end,
        forall|m: int|
            0 <= m < batches.len() && (#[trigger] batches[m]).start <= i < batches[m].end ==> m
                == k,
{
    lemma_ranges_ascend(vertices, batches);
    find_range(vertices, batches, i, 0)
}

/// A sequence of instances has one partition only.
pub proof fn lemma_partition_unique(
    vertices: Seq<ShapeVertex>,
    first: Seq<ShapeBatch>,
    second: Seq<ShapeBatch>,
)
    requires
        is_partition(vertices, first),
        is_partition(vertices, second),
    ensures
        first == second,
{
    if first.len() <= second.len() {
        lemma_partition_prefix(vertices, first, second, first.len() as int);
    } else {
        lemma_partition_prefix(vertices, second, first, second.len() as int);
    }
}

/// Two partitions of one sequence have the same first `n` ranges, and the
/// shorter is not shorter.
proof fn lemma_partition_prefix(
    vertices: Seq<ShapeVertex>,
    first: Seq<ShapeBatch>,
    second: Seq<ShapeBatch>,
    n: int,
)
    requires
        is_partition(vertices, first),
        is_partition(vertices, second),
        first.len() <= second.len(),
        0 <= n <= first.len(),
    ensures
        forall|k: int| 0 <= k < n ==> first[k] == second[k],
        n == first.len() ==> first.len() == second.len(),
    decreases n,
{
    if n > 0 {
        lemma_partition_prefix(vertices, first, second, n - 1);
        // The two ranges at `n - 1` start together. They end together too:
        // were one to end first, the next range of its partition would
        // start inside the other, at an instance of the same depth.
        let k = n - 1;
        if k > 0 {
            assert(first[k - 1].end == first[k].start);
        }
    }
}

/// In a partition, a range that comes before another ends at or before the
/// start of the other.
proof fn lemma_ranges_ascend(vertices: Seq<ShapeVertex>, batches: Seq<ShapeBatch>)
    requires
        is_partition(vertices, batches),
    ensures
        forall|a: int, b: int|
            0 <= a < b < batches.len() ==> (#[trigger] batches[a]).end <= (
            #[trigger] batches[b]).start,
{
    assert forall|a: int, b: int| 0 <= a < b < batches.len() implies (#[trigger] batches[a]).end
        <= (#[trigger] batches[b]).start by {
        lemma_ranges_ascend_pair(vertices, batches, a, b);
    }
}

proof fn lemma_ranges_ascend_pair(
    vertices: Seq<ShapeVertex>,
    batches: Seq<ShapeBatch>,
    a: int,
    b: int,
)
    requires
        is_partition(vertices, batches),
        0 <= a < b < batches.len(),
    ensures
        batches[a].end <= batches[b].start,
    decreases b - a,
{
    if a + 1 < b {
        lemma_ranges_ascend_pair(vertices, batches, a, b - 1);
    }
}

/// The range of the partition that holds instance `i`, searched from
/// range `from` on.
proof fn find_range(vertices: Seq<ShapeVertex>, batches: Seq<ShapeBatch>, i: int, from: int) -> (k:
    int)
    requires
        is_partition(vertices, batches),
        0 <= i < vertices.len(),
        0 <= from < batches.len(),
        batches[from].start <= i,
    ensures
        from <= k < batches.len(),
        batches[k].start <= i < batches[k].end,
    decreases batches.len() - from,
{
    if i < batches[from].end {
        from
    } else {
        find_range(vertices, batches, i, from + 1)
    }
}

/// In the partition of instances sorted by depth, the depth of each range
/// is less than that of every later range.
pub proof fn lemma_sorted_partition_ascends(
    vertices: Seq<ShapeVertex>,
    batches: Seq<ShapeBatch>,
    a: int,
    b: int,
)
    requires
        sorted_by_depth(vertices),
        is_partition(vertices, batches),
        0 <= a < b < batches.len(),
    ensures
        vertices[batches[a].start as int].spec_order_key() < vertices[batches[b].start
            as int].spec_order_key(),
{
    // The keys ascend from each range to the next, and two ranges next to
    // each other have different depths, so different keys.
    lemma_ranges_ascend(vertices, batches);
}

/// Sorts the instances by depth and cuts them into batches: one for each
/// depth that occurs, in ascending order of depth.
pub fn plan(instances: &mut Vec<ShapeVertex>) -> (batches: Vec<ShapeBatch>)
    requires
        old(instances)@.len() <= u32::MAX,
    ensures
        is_depth_sort_of(final(instances)@, old(instances)@),
        is_partition(final(instances)@, batches@),
        forall|a: int, b: int|
            0 <= a < b < batches@.len() ==> final(instances)@[(
            #[trigger] batches@[a]).start as int].spec_order_key() < final(instances)@[(
            #[trigger] batches@[b]).start as int].spec_order_key(),
{
    sort_shapes(instances);
    let batches = plan_batches(instances);
    proof {
        assert forall|a: int, b: int| 0 <= a < b < batches@.len() implies instances@[(
        #[trigger] batches@[a]).start as int].spec_order_key() < instances@[(
        #[trigger] batches@[b]).start as int].spec_order_key() by {
            lemma_sorted_partition_ascends(instances@, batches@, a, b);
        }
    }
    batches
}

/// One entry of a view's render queue: one batch, the draw function and
/// the pipeline that draw it, and the depth by which the queue is ordered.
#[derive(Clone, Copy, Debug, PartialEq, Eq, Hash, Structural)]
pub struct RenderPhaseItem {
    /// Depth bits of the instances of the batch.
    pub sort_key: u32,
    /// The draw function: it stands for one shader definition.
    pub draw_function: u32,
    /// The specialized pipeline.
    pub pipeline: usize,
    /// The draw range.
    pub batch: ShapeBatch,
}

/// The queue entries of the batches of `vertices`, one for each batch, in
/// order.
pub open spec fn batch_items(
    vertices: Seq<ShapeVertex>,
    batches: Seq<ShapeBatch>,
    draw_function: u32,
    pipeline: usize,
) -> Seq<RenderPhaseItem> {
    Seq::new(
        batches.len(),
        |k: int|
            RenderPhaseItem {
                sort_key: vertices[batches[k].start as int].spec_z_index(),
                draw_function,
                pipeline,
                batch: batches[k],
            },
    )
}

/// Cuts the instances into batches and adds one entry for each batch, in
/// order, to the end of the render queue `phase`.
pub fn queue_shapes(
    vertices: &Vec<ShapeVertex>,
    draw_function: u32,
    pipeline: usize,
    phase: &mut Vec<RenderPhaseItem>,
) -> (batches: Vec<ShapeBatch>)
    requires
        vertices@.len() <= u32::MAX,
    ensures
        is_partition(vertices@, batches@),
        final(phase)@ == old(phase)@ + batch_items(
            vertices@,
            batches@,
            draw_function,
            pipeline,
        ),
{
    let batches = plan_batches(vertices);
    let mut k: usize = 0;
    while k < batches.len()
        invariant
            k <= batches.len(),
            is_partition(vertices@, batches@),
            phase@ == old(phase)@ + batch_items(
                vertices@,
                batches@,
                draw_function,
                pipeline,
            ).take(k as int),
        decreases batches.len() - k,
    {
        let batch = batches[k];
        let sort_key = vertices[batch.start as usize].z_index();
        phase.push(RenderPhaseItem { sort_key, draw_function, pipeline, batch });
        k += 1;
    }
    batches
}

} // verus!
