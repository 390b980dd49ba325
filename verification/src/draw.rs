//! The draw call of one batch.
use vstd::prelude::*;
use crate::queue::ShapeBatch;

verus! {

/// Number of vertices of an instance: the four corners of a quad, drawn as
/// a triangle strip.
pub const VERTICES_PER_INSTANCE: u32 = 4;

/// What drawing one entry of the render queue comes to.
#[derive(Clone, Copy, Debug, PartialEq, Eq, Hash, Structural)]
pub enum RenderCommandResult {
    /// One instanced draw call: the vertices from `first_vertex` up to,
    /// not including, `end_vertex`, for each instance of `instances`.
    Success { first_vertex: u32, end_vertex: u32, instances: ShapeBatch },
    /// Nothing is drawn for this entry; the frame goes on. With
    /// `warn`, the instance buffer has not been written and a warning is
    /// due.
    Failure { warn: bool },
}

/// What drawing the entry whose batch is `batch` comes to.
pub open spec fn spec_draw_shape_batch(
    batch: Option<ShapeBatch>,
    buffer_written: bool,
) -> RenderCommandResult {
    match batch {
        Some(batch) => if buffer_written {
            RenderCommandResult::Success {
                first_vertex: 0,
                end_vertex: VERTICES_PER_INSTANCE,
                instances: batch,
            }
        } else {
            RenderCommandResult::Failure { warn: true }
        },
        None => RenderCommandResult::Failure { warn: false },
    }
}

/// Decides the draw call of one entry of the render queue: its batch is
/// drawn as quads where the instance buffer has been written; otherwise
/// the entry fails alone.
pub fn draw_shape_batch(batch: Option<ShapeBatch>, buffer_written: bool) -> (result:
    RenderCommandResult)
    ensures
        result == spec_draw_shape_batch(batch, buffer_written),
{
    if let Some(batch) = batch {
        if buffer_written {
            //0..4 as there are four vertices
            RenderCommandResult::Success {
                first_vertex: 0,
                end_vertex: VERTICES_PER_INSTANCE,
                instances: batch,
            }
        } else {
            RenderCommandResult::Failure { warn: true }
        }
    } else {
        RenderCommandResult::Failure { warn: false }
    }
}

} // verus!
