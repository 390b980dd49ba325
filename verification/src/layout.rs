//! The per-instance vertex-buffer layout of a schema.
//!
//! An instance is a rotation (two words), a position (three words), a
//! scale (one word) and then the schema's fields in order, packed without
//! padding. Attributes take consecutive shader locations from 0.
use vstd::prelude::*;
use crate::helpers::{
    all_supported, field_locations, get_vertex_format, is_supported, location_line,
    params_locations, spec_vertex_format, spec_wgsl_format_name, spec_wgsl_type_name,
    SchemaError,
};
use crate::shader_params::{FieldSpec, Schema};
use crate::vertex_format::{VertexFormat, WORD_BYTE_LENGTH};

verus! {

/// Words of the rotation: cosine and sine.
pub const ROTATION_WORDS: u64 = 2;

/// Words of the position: x, y and z.
pub const POSITION_WORDS: u64 = 3;

/// Words of the scale.
pub const SCALE_WORDS: u64 = 1;

/// Number of attributes that every instance starts with.
pub const CONSTANT_PARAMS: usize = 3;

/// Bytes that the fixed leading attributes take.
pub const CONSTANT_BYTES: u64 = 24;

/// First location, in the fragment-facing struct, of a schema field: the
/// one after the interpolated position.
pub const FRAGMENT_CONSTANT_PARAMS: u32 = 1;

/// One attribute of a vertex buffer.
#[derive(Clone, Copy, Debug, PartialEq, Eq, Hash, Structural)]
pub struct VertexAttribute {
    pub format: VertexFormat,
    /// Byte offset of the attribute in one instance.
    pub offset: u64,
    /// Location of the attribute in the vertex-stage input struct.
    pub shader_location: u32,
}

/// A vertex attribute in the model.
pub struct AttributeSpec {
    pub format: VertexFormat,
    pub offset: nat,
    pub shader_location: nat,
}

impl View for VertexAttribute {
    type V = AttributeSpec;

    open spec fn view(&self) -> AttributeSpec {
        AttributeSpec {
            format: self.format,
            offset: self.offset as nat,
            shader_location: self.shader_location as nat,
        }
    }
}

/// How often the GPU steps to the next element of a vertex buffer.
#[derive(Clone, Copy, Debug, PartialEq, Eq, Hash, Structural)]
pub enum VertexStepMode {
    Vertex,
    Instance,
}

/// A vertex-buffer layout in the model.
pub struct LayoutSpec {
    pub array_stride: nat,
    pub step_mode: VertexStepMode,
    pub attributes: Seq<AttributeSpec>,
}

/// The layout of a vertex buffer.
#[derive(Clone, Debug)]
pub struct VertexBufferLayout {
    /// Bytes from one instance to the next.
    pub array_stride: u64,
    pub step_mode: VertexStepMode,
    pub attributes: Vec<VertexAttribute>,
}

impl View for VertexBufferLayout {
    type V = LayoutSpec;

    open spec fn view(&self) -> LayoutSpec {
        LayoutSpec {
            array_stride: self.array_stride as nat,
            step_mode: self.step_mode,
            attributes: self.attributes@.map_values(|a: VertexAttribute| a@),
        }
    }
}

/// Bytes that the fields of `schema` take together.
pub open spec fn params_size(schema: Seq<FieldSpec>) -> nat
    decreases schema.len(),
{
    if schema.len() == 0 {
        0
    } else {
        params_size(schema.drop_last()) + spec_vertex_format(schema.last().ty).unwrap().spec_size()
    }
}

/// Byte offset, in one instance, of the field at `index` of `schema`.
pub open spec fn field_offset(schema: Seq<FieldSpec>, index: int) -> nat {
    CONSTANT_BYTES as nat + params_size(schema.take(index))
}

/// The attribute at position `k` of the layout of `schema`.
pub open spec fn layout_attribute(schema: Seq<FieldSpec>, k: int) -> AttributeSpec {
    if k == 0 {
        AttributeSpec { format: VertexFormat::Float32x2, offset: 0, shader_location: 0 }
    } else if k == 1 {
        AttributeSpec { format: VertexFormat::Float32x3, offset: 8, shader_location: 1 }
    } else if k == 2 {
        AttributeSpec { format: VertexFormat::Float32, offset: 20, shader_location: 2 }
    } else {
        AttributeSpec {
            format: spec_vertex_format(schema[k - 3].ty).unwrap(),
            offset: field_offset(schema, k - 3),
            shader_location: field_locations(schema.len(), CONSTANT_PARAMS as nat)[k - 3],
        }
    }
}

/// The layout of the instances of `schema`.
pub open spec fn spec_layout(schema: Seq<FieldSpec>) -> LayoutSpec {
    LayoutSpec {
        array_stride: CONSTANT_BYTES as nat + params_size(schema),
        step_mode: VertexStepMode::Instance,
        attributes: Seq::new(3 + schema.len(), |k: int| layout_attribute(schema, k)),
    }
}

/// The fields of a schema take at most 32 bytes each.
pub proof fn lemma_params_size_bound(schema: Seq<FieldSpec>)
    ensures
        params_size(schema) <= 32 * schema.len(),
    decreases schema.len(),
{
    if schema.len() > 0 {
        lemma_params_size_bound(schema.drop_last());
    }
}

/// Plans the vertex-buffer layout of the instances of `schema`.
///
/// Fails exactly when some field is unsupported, and then names the first
/// such field.
pub fn plan_layout(schema: &Schema) -> (result: Result<VertexBufferLayout, SchemaError>)
    requires
        CONSTANT_PARAMS + schema@.len() <= u32::MAX,
    ensures
        result is Ok <==> all_supported(schema@),
        result is Ok ==> (result->Ok_0)@ == spec_layout(schema@),
        result is Err ==> (result->Err_0).describes(schema@),
{
    let mut vertex_attributes: Vec<VertexAttribute> = Vec::new();
    // Rotation
    vertex_attributes.push(
        VertexAttribute { format: VertexFormat::Float32x2, offset: 0, shader_location: 0 },
    );
    // Position
    vertex_attributes.push(
        VertexAttribute {
            format: VertexFormat::Float32x3,
            offset: ROTATION_WORDS * WORD_BYTE_LENGTH,
            shader_location: 1,
        },
    );
    // Scale
    vertex_attributes.push(
        VertexAttribute {
            format: VertexFormat::Float32,
            offset: (ROTATION_WORDS + POSITION_WORDS) * WORD_BYTE_LENGTH,
            shader_location: 2,
        },
    );

    let mut offset: u64 = (POSITION_WORDS + ROTATION_WORDS + SCALE_WORDS) * WORD_BYTE_LENGTH;
    let mut shader_location: u32 = 3;
    let mut index: usize = 0;
    let param_count = schema.field_len();

    while index < param_count
        invariant
            param_count == schema@.len(),
            index <= param_count,
            CONSTANT_PARAMS + schema@.len() <= u32::MAX,
            shader_location == 3 + index,
            offset == field_offset(schema@, index as int),
            vertex_attributes@.len() == 3 + index,
            forall|j: int| 0 <= j < index ==> is_supported(
                (#[trigger] schema@[j]).ty,
            ),
            forall|k: int|
                0 <= k < 3 + index ==> (#[trigger] vertex_attributes@[k])@ == layout_attribute(
                    schema@,
                    k,
                ),
        decreases param_count - index,
    {
        let field = &schema.fields[index];
        let format = match get_vertex_format(field.ty) {
            Some(format) => format,
            None => {
                return Err(SchemaError { index, name: field.name.clone(), ty: field.ty });
            },
        };
        proof {
            lemma_params_size_bound(schema@.take(index as int));
            let prefix = schema@.take(index as int + 1);
            assert(prefix.drop_last() =~= schema@.take(index as int));
        }
        vertex_attributes.push(VertexAttribute { format, offset, shader_location });
        offset += format.size();
        shader_location += 1;
        index += 1;
    }
    assert(schema@.take(index as int) =~= schema@);
    let layout = VertexBufferLayout {
        array_stride: offset,
        step_mode: VertexStepMode::Instance,
        attributes: vertex_attributes,
    };
    assert(layout@.attributes =~= spec_layout(schema@).attributes);
    Ok(layout)
}

/// The locations that the layout gives the fields, as the fragment stage
/// numbers them: behind the one fixed location of the interpolated
/// position, where the vertex stage has its three fixed attributes.
pub open spec fn fragment_locations(layout: LayoutSpec) -> Seq<nat> {
    Seq::new(
        (layout.attributes.len() - CONSTANT_PARAMS) as nat,
        |i: int|
            (layout.attributes[CONSTANT_PARAMS + i].shader_location - CONSTANT_PARAMS
                + FRAGMENT_CONSTANT_PARAMS) as nat,
    )
}

/// Each declaration of the shader structs stands at its field's location:
/// the declarations of the first `i + 1` fields are those of the first `i`
/// and then the one of field `i`, at position `i` of the field locations.
pub proof fn lemma_params_locations_line(schema: Seq<FieldSpec>, first: nat, i: int)
    requires
        0 <= i < schema.len(),
    ensures
        params_locations(schema.take(i + 1), first) == params_locations(schema.take(i), first)
            + location_line(
            field_locations(schema.len(), first)[i],
            schema[i].name,
            spec_wgsl_type_name(schema[i].ty).unwrap(),
        ),
{
    let prefix = schema.take(i + 1);
    assert(prefix.drop_last() =~= schema.take(i));
}

/// Location agreement: the layout and the shader sources number the
/// fields alike, in count and in order. The attribute of each field has
/// the location that the vertex-stage input struct declares for it, the
/// same attributes in the fragment stage's numbering have the locations
/// that the vertex-stage output struct and the fragment-stage input struct
/// declare, and each attribute's format has the type name that the
/// structs declare.
pub proof fn lemma_locations_agree(schema: Seq<FieldSpec>)
    requires
        all_supported(schema),
    ensures
        spec_layout(schema).attributes.len() == CONSTANT_PARAMS + schema.len(),
        fragment_locations(spec_layout(schema)) == field_locations(
            schema.len(),
            FRAGMENT_CONSTANT_PARAMS as nat,
        ),
        forall|i: int|
            0 <= i < schema.len() ==> {
                let attribute = #[trigger] spec_layout(schema).attributes[CONSTANT_PARAMS + i];
                &&& attribute.shader_location == field_locations(
                    schema.len(),
                    CONSTANT_PARAMS as nat,
                )[i]
                &&& Some(spec_wgsl_format_name(attribute.format)) == spec_wgsl_type_name(
                    schema[i].ty,
                )
            },
{
}

} // verus!
