//! Filling and emptying the instance buffer of a frame.
use vstd::prelude::*;
use crate::instance::{vertices_view, ShapeVertex, VertexSpec};
use crate::parameterized_shader::ExtractToShader;
use crate::shader_params::ShaderParams;

verus! {

/// A shape entity as the renderer finds it in one frame: whether it is
/// visible, what was read from it for its parameters, and its world
/// transform as rotation, position and scale. Floats are held as their bit
/// patterns.
pub struct ShapeEntity<Q> {
    /// Whether some view sees the entity.
    pub view_visibility: bool,
    /// What the parameters are computed from.
    pub params_item: Q,
    /// Cosine and sine of the rotation angle.
    pub rotation: (u32, u32),
    /// World position: x, y and z.
    pub position: (u32, u32, u32),
    /// Uniform scale.
    pub scale: u32,
}

/// The instance record of `entity`: its transform, and the values of the
/// parameters that `Extractable` computes from it and from `resource`.
pub open spec fn extracted_vertex<Extractable: ExtractToShader>(
    entity: ShapeEntity<Extractable::ParamsQuery>,
    resource: Extractable::ResourceParams,
) -> VertexSpec {
    VertexSpec {
        rotation: entity.rotation,
        position: entity.position,
        scale: entity.scale,
        params: Extractable::spec_get_params(entity.params_item, resource).spec_values(),
    }
}

/// The instance records of the visible entities among `shapes`, in order.
pub open spec fn extracted_vertices<Extractable: ExtractToShader>(
    shapes: Seq<ShapeEntity<Extractable::ParamsQuery>>,
    resource: Extractable::ResourceParams,
) -> Seq<VertexSpec>
    decreases shapes.len(),
{
    if shapes.len() == 0 {
        Seq::empty()
    } else if shapes.last().view_visibility {
        extracted_vertices::<Extractable>(shapes.drop_last(), resource).push(
            extracted_vertex::<Extractable>(shapes.last(), resource),
        )
    } else {
        extracted_vertices::<Extractable>(shapes.drop_last(), resource)
    }
}

/// Appends the instance record of each visible entity, in order, to the
/// instance buffer; an entity that is not visible leaves no record.
pub fn extract_shapes<Extractable: ExtractToShader>(
    extracted_shapes: &mut Vec<ShapeVertex>,
    shape_query: &Vec<ShapeEntity<Extractable::ParamsQuery>>,
    resource_params: &Extractable::ResourceParams,
)
    ensures
        vertices_view(final(extracted_shapes)@) == vertices_view(old(extracted_shapes)@)
            + extracted_vertices::<Extractable>(shape_query@, *resource_params),
{
    let resource = resource_params;
    let mut index: usize = 0;
    while index < shape_query.len()
        invariant
            index <= shape_query.len(),
            vertices_view(extracted_shapes@) == vertices_view(old(extracted_shapes)@)
                + extracted_vertices::<Extractable>(shape_query@.take(index as int), *resource),
        decreases shape_query.len() - index,
    {
        let entity = &shape_query[index];
        proof {
            let prefix = shape_query@.take(index as int + 1);
            assert(prefix.drop_last() =~= shape_query@.take(index as int));
        }
        if entity.view_visibility {
            let params = Extractable::get_params(&entity.params_item, resource);
            let shape_vertex = ShapeVertex::new(
                entity.rotation,
                entity.position,
                entity.scale,
                params.values(),
            );
            let ghost before = extracted_shapes@;
            extracted_shapes.push(shape_vertex);
            assert(vertices_view(extracted_shapes@) =~= vertices_view(before).push(
                extracted_vertex::<Extractable>(*entity, *resource),
            ));
        }
        index += 1;
    }
    assert(shape_query@.take(index as int) =~= shape_query@);
}

/// Empties the instance buffer, so that no record outlives its frame.
pub fn cleanup_shapes(extracted_shapes: &mut Vec<ShapeVertex>)
    ensures
        final(extracted_shapes)@ == Seq::<ShapeVertex>::empty(),
{
    extracted_shapes.clear();
}

} // verus!
