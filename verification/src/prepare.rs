//! What a frame does with the instances of one shape kind once they are
//! queued: bind the uniforms that are there, and hand the instances to the
//! GPU.
use vstd::prelude::*;
use crate::instance::ShapeVertex;

verus! {

/// What preparing a frame does for one shape kind.
#[derive(Clone, Copy, Debug, PartialEq, Eq, Hash, Structural)]
pub enum PrepareAction {
    /// A uniform that the shaders need is not there yet: nothing is bound
    /// or written, and nothing is drawn this frame.
    Skip,
    /// Bind the per-view uniform alone, then write the instances.
    BindView,
    /// Bind the per-view uniform and the global one, in this order, then
    /// write the instances.
    BindViewAndGlobals,
}

/// What preparing a frame does, given which uniforms are there.
pub open spec fn spec_prepare_action(
    view_binding_ready: bool,
    use_time: bool,
    globals_binding_ready: bool,
) -> PrepareAction {
    if !view_binding_ready {
        PrepareAction::Skip
    } else if use_time {
        if globals_binding_ready {
            PrepareAction::BindViewAndGlobals
        } else {
            PrepareAction::Skip
        }
    } else {
        PrepareAction::BindView
    }
}

/// Decides what preparing a frame does for a shape kind: it is skipped
/// unless the per-view uniform is there and, where the shape kind uses the
/// time, the global one too.
pub fn prepare_shapes(
    view_binding_ready: bool,
    use_time: bool,
    globals_binding_ready: bool,
) -> (action: PrepareAction)
    ensures
        action == spec_prepare_action(view_binding_ready, use_time, globals_binding_ready),
{
    if !view_binding_ready {
        return PrepareAction::Skip;
    }
    if use_time {
        if !globals_binding_ready {
            return PrepareAction::Skip;
        }
        PrepareAction::BindViewAndGlobals
    } else {
        PrepareAction::BindView
    }
}

impl PrepareAction {
    /// Number of uniforms that the action binds.
    pub open spec fn spec_binding_count(self) -> nat {
        match self {
            PrepareAction::Skip => 0,
            PrepareAction::BindView => 1,
            PrepareAction::BindViewAndGlobals => 2,
        }
    }
}

/// Where preparing is not skipped, it binds one uniform for each entry of
/// the bind-group layout.
pub proof fn lemma_prepare_fills_layout(
    view_binding_ready: bool,
    use_time: bool,
    globals_binding_ready: bool,
)
    requires
        spec_prepare_action(view_binding_ready, use_time, globals_binding_ready)
            != PrepareAction::Skip,
    ensures
        spec_prepare_action(
            view_binding_ready,
            use_time,
            globals_binding_ready,
        ).spec_binding_count() == crate::shader_pipeline::spec_view_layout_entries(
            use_time,
        ).len(),
{
}

/// The binary forms of `vertices`, one after the other.
pub open spec fn instances_bytes(vertices: Seq<ShapeVertex>) -> Seq<u8>
    decreases vertices.len(),
{
    if vertices.len() == 0 {
        Seq::empty()
    } else {
        instances_bytes(vertices.drop_last()) + vertices.last().spec_bytes()
    }
}

/// The content of the instance buffer: the binary forms of the instances,
/// in order.
pub fn write_buffer(vertices: &Vec<ShapeVertex>) -> (bytes: Vec<u8>)
    ensures
        bytes@ == instances_bytes(vertices@),
{
    let mut bytes: Vec<u8> = Vec::new();
    let mut index: usize = 0;
    while index < vertices.len()
        invariant
            index <= vertices.len(),
            bytes@ == instances_bytes(vertices@.take(index as int)),
        decreases vertices.len() - index,
    {
        vertices[index].write_to(&mut bytes);
        proof {
            let prefix = vertices@.take(index as int + 1);
            assert(prefix.drop_last() =~= vertices@.take(index as int));
        }
        index += 1;
    }
    assert(vertices@.take(index as int) =~= vertices@);
    bytes
}

} // verus!
