//! The source of the vertex stage.
use vstd::prelude::*;
use crate::helpers::{all_supported, params_locations, schema_params_locations, SchemaError};
use crate::layout::{CONSTANT_PARAMS, FRAGMENT_CONSTANT_PARAMS};
use crate::parameterized_shader::{
    definition, spec_definition, DefinitionSpec, ParameterizedShader, ShaderDefinition,
};
use crate::shader_params::{FieldSpec, Schema, ShaderParams};
use crate::text::{decimal, push_decimal};

verus! {

/// The source of a shader and the path that names it.
#[derive(Clone, Debug)]
pub struct ShaderSource {
    pub source: String,
    pub path: String,
}

/// The start of the vertex source, up to the type path.
pub const VERTEX_IMPORT_PATH: &'static str = "\n#define_import_path param_shaders::vertex_params_";

/// The view uniform and the start of the input struct, with the fixed
/// leading attributes.
pub const VERTEX_INPUT_HEAD: &'static str =
    "\n\nstruct View {\n    view_proj: mat4x4<f32>,\n    world_position: vec3<f32>,\n};\n@group(0) @binding(0)\nvar<uniform> view: View;\n\n// the attributes of one instance\nstruct Vertex {\n@location(0) rotation: vec2<f32>,\n@location(1) position: vec3<f32>,\n@location(2) scale: f32,\n";

/// The end of the input struct and the start of the output struct, with
/// the interpolated position.
pub const VERTEX_OUTPUT_HEAD: &'static str =
    "\n};\n\n\n\nstruct VertexOutput {\n@builtin(position) clip_position: vec4<f32>,\n@location(0) pos: vec2<f32>,\n";

/// The end of the output struct and the start of the vertex function, up
/// to the frame expression.
pub const VERTEX_FUNCTION_HEAD: &'static str =
    "\n};\n\n@vertex\nfn vertex(\n    vertex: Vertex,\n    @builtin(vertex_index) i: u32\n) -> VertexOutput {\nvar out: VertexOutput;\nlet frame = ";

/// The corner of the quad, scaled by the scale and the frame, rotated,
/// moved to the world position and projected.
pub const VERTEX_TRANSFORM: &'static str =
    ";\n\nlet x = select(-1., 1., i % 2u == 0u);\nlet y = select(-1., 1., (i / 2u) % 2u == 0u);\nlet c = vertex.rotation.x;\nlet s = vertex.rotation.y;\nlet corner = vec2<f32>(x, y) * vertex.scale * frame;\nlet rotated = vec2<f32>(corner.x * c - corner.y * s, corner.x * s + corner.y * c);\nlet pos = vertex.position + vec3<f32>(rotated, 0.);\n// Project the world position of the mesh into screen position\nout.clip_position = view.view_proj * vec4<f32>(pos, 1.);\n";

/// The local position, which is not scaled, and the end of the function.
pub const VERTEX_TAIL: &'static str = "\nout.pos = vec2<f32>(x, y) * frame;\nreturn out;\n}\n";

/// The start of the path of a vertex shader.
pub const VERTEX_PATH: &'static str = "vertex_";

/// The statement that copies the field `name` from input to output.
pub open spec fn assignment_line(name: Seq<char>) -> Seq<char> {
    "    out."@ + name + " = vertex."@ + name + ";\n"@
}

/// The statements that copy each field of `schema` from input to output.
pub open spec fn params_assignments(schema: Seq<FieldSpec>) -> Seq<char>
    decreases schema.len(),
{
    if schema.len() == 0 {
        Seq::empty()
    } else {
        params_assignments(schema.drop_last()) + assignment_line(schema.last().name)
    }
}

/// The source of the vertex stage of `definition`.
///
/// The input struct has the rotation, the position and the scale at
/// locations 0 to 2 and then the fields; the output struct has the local
/// position at location 0 and then the fields.
pub open spec fn spec_vertex_source(definition: DefinitionSpec) -> Seq<char> {
    VERTEX_IMPORT_PATH@ + definition.type_path + VERTEX_INPUT_HEAD@ + params_locations(
        definition.schema,
        CONSTANT_PARAMS as nat,
    ) + VERTEX_OUTPUT_HEAD@ + params_locations(
        definition.schema,
        FRAGMENT_CONSTANT_PARAMS as nat,
    ) + VERTEX_FUNCTION_HEAD@ + definition.frame_expression + VERTEX_TRANSFORM@
        + params_assignments(definition.schema) + VERTEX_TAIL@
}

/// The path of the vertex shader of the shape kind `uuid`.
pub open spec fn spec_vertex_path(uuid: u128) -> Seq<char> {
    VERTEX_PATH@ + decimal(uuid as nat)
}

/// The statements that copy each field of `schema` from input to output.
pub fn format_params_assignments(schema: &Schema) -> (text: String)
    ensures
        text@ == params_assignments(schema@),
{
    let mut text = String::new();
    let mut index: usize = 0;
    let param_count = schema.field_len();
    while index < param_count
        invariant
            param_count == schema@.len(),
            index <= param_count,
            text@ == params_assignments(schema@.take(index as int)),
        decreases param_count - index,
    {
        let name = schema.fields[index].name.as_str();
        text.append("    out.");
        text.append(name);
        text.append(" = vertex.");
        text.append(name);
        text.append(";\n");
        proof {
            let prefix = schema@.take(index as int + 1);
            assert(prefix.drop_last() =~= schema@.take(index as int));
        }
        index += 1;
    }
    assert(schema@.take(index as int) =~= schema@);
    text
}

/// Synthesizes the vertex shader of `definition`.
///
/// Fails exactly when some field is unsupported, and then names the first
/// such field.
pub fn vertex_shader(definition: &ShaderDefinition) -> (result: Result<ShaderSource, SchemaError>)
    requires
        CONSTANT_PARAMS + definition@.schema.len() <= u32::MAX,
    ensures
        result is Ok <==> all_supported(definition@.schema),
        result is Ok ==> {
            &&& (result->Ok_0).source@ == spec_vertex_source(definition@)
            &&& (result->Ok_0).path@ == spec_vertex_path(definition.uuid)
        },
        result is Err ==> (result->Err_0).describes(definition@.schema),
{
    let vertex_params_locations = match schema_params_locations(&definition.schema, 3) {
        Ok(text) => text,
        Err(error) => { return Err(error); },
    };
    let fragment_params_locations = match schema_params_locations(
        &definition.schema,
        FRAGMENT_CONSTANT_PARAMS,
    ) {
        Ok(text) => text,
        Err(error) => { return Err(error); },
    };
    let params_assignments = format_params_assignments(&definition.schema);

    let mut source = String::from_str(VERTEX_IMPORT_PATH);
    source.append(definition.type_path.as_str());
    source.append(VERTEX_INPUT_HEAD);
    source.append(vertex_params_locations.as_str());
    source.append(VERTEX_OUTPUT_HEAD);
    source.append(fragment_params_locations.as_str());
    source.append(VERTEX_FUNCTION_HEAD);
    source.append(definition.frame_expression.as_str());
    source.append(VERTEX_TRANSFORM);
    source.append(params_assignments.as_str());
    source.append(VERTEX_TAIL);

    let mut path = String::from_str(VERTEX_PATH);
    push_decimal(&mut path, definition.uuid);
    Ok(ShaderSource { source, path })
}

/// Creates a vertex shader with the correct number of arguments
pub fn create_vertex_shader<Shader: ParameterizedShader>() -> (result: Result<
    ShaderSource,
    SchemaError,
>)
    requires
        CONSTANT_PARAMS + <Shader::Params as ShaderParams>::spec_schema().len() <= u32::MAX,
    ensures
        result is Ok <==> all_supported(<Shader::Params as ShaderParams>::spec_schema()),
        result is Ok ==> {
            &&& (result->Ok_0).source@ == spec_vertex_source(spec_definition::<Shader>())
            &&& (result->Ok_0).path@ == spec_vertex_path(Shader::UUID)
        },
        result is Err ==> (result->Err_0).describes(
            <Shader::Params as ShaderParams>::spec_schema(),
        ),
{
    let definition = definition::<Shader>();
    vertex_shader(&definition)
}

} // verus!
