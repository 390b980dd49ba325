//! The source of the fragment stage.
use vstd::prelude::*;
use crate::helpers::{all_supported, params_locations, schema_params_locations, SchemaError};
use crate::layout::{CONSTANT_PARAMS, FRAGMENT_CONSTANT_PARAMS};
use crate::parameterized_shader::{
    definition, imports_view, spec_definition, DefinitionSpec, FragmentImport, ImportSpec,
    ParameterizedShader, ShaderDefinition,
};
use crate::shader_params::ShaderParams;
use crate::text::{decimal, push_decimal};
use crate::vertex_shader::{spec_vertex_path, spec_vertex_source, vertex_shader, ShaderSource};

verus! {

/// The import of the type of the global uniform.
pub const TIME_IMPORT: &'static str = "#import bevy_render::globals::Globals";

/// The per-view uniform: binding 0 of group 0, always there.
pub const VIEW_GROUP: &'static str =
    "struct View {\n    view_proj: mat4x4<f32>,\n    world_position: vec3<f32>,\n};\n@group(0) @binding(0)\nvar<uniform> view: View;\n";

/// The global uniform, which holds the time: binding 1 of group 0.
pub const TIME_GROUP: &'static str = "@group(0) @binding(1)\n        var<uniform> globals: Globals;";

/// The start of the input struct, with the interpolated position.
pub const FRAGMENT_INPUT_HEAD: &'static str =
    "\n\nstruct FragmentInput {\n@location(0) pos: vec2<f32>,\n";

/// The end of the input struct and the start of the fragment function.
pub const FRAGMENT_FUNCTION_HEAD: &'static str =
    "\n};\n\n@fragment\nfn fragment(in: FragmentInput) -> @location(0) vec4<f32> {\n    ";

/// The end of the fragment function.
pub const FRAGMENT_TAIL: &'static str = "\n}\n\n\n";

/// The start of the path of a fragment shader.
pub const FRAGMENT_PATH: &'static str = "fragment_";

/// The line that imports the module `import_path`.
pub open spec fn import_line(import_path: Seq<char>) -> Seq<char> {
    "#import "@ + import_path
}

/// One import line for each of `imports`, in order, with a line break
/// between two of them.
pub open spec fn import_lines(imports: Seq<ImportSpec>) -> Seq<char>
    decreases imports.len(),
{
    if imports.len() == 0 {
        Seq::empty()
    } else if imports.len() == 1 {
        import_line(imports[0].import_path)
    } else {
        import_lines(imports.drop_last()) + "\n"@ + import_line(imports.last().import_path)
    }
}

/// The import of the global uniform's type, where the time is used.
pub open spec fn time_import(use_time: bool) -> Seq<char> {
    if use_time {
        TIME_IMPORT@
    } else {
        Seq::empty()
    }
}

/// The declaration of the global uniform, where the time is used.
pub open spec fn time_group(use_time: bool) -> Seq<char> {
    if use_time {
        TIME_GROUP@
    } else {
        Seq::empty()
    }
}

/// The source of the fragment stage of `definition`.
///
/// The imports come first. The per-view uniform is always declared, the
/// global one only where the time is used. The input struct has the local
/// position at location 0 and then the fields. The fragment body is the
/// body of the fragment function.
pub open spec fn spec_fragment_source(definition: DefinitionSpec) -> Seq<char> {
    "\n"@ + time_import(definition.use_time) + "\n"@ + import_lines(definition.imports) + "\n\n"@
        + VIEW_GROUP@ + time_group(definition.use_time) + FRAGMENT_INPUT_HEAD@ + params_locations(
        definition.schema,
        FRAGMENT_CONSTANT_PARAMS as nat,
    ) + FRAGMENT_FUNCTION_HEAD@ + definition.fragment_body + FRAGMENT_TAIL@
}

/// The path of the fragment shader of the shape kind `uuid`.
pub open spec fn spec_fragment_path(uuid: u128) -> Seq<char> {
    FRAGMENT_PATH@ + decimal(uuid as nat)
}

/// Number of uniform bindings that the fragment source declares in group 0.
pub open spec fn spec_binding_count(use_time: bool) -> nat {
    if use_time {
        2
    } else {
        1
    }
}

/// One import line for each of `imports`, in order, with a line break
/// between two of them.
pub fn format_imports(imports: &Vec<FragmentImport>) -> (text: String)
    ensures
        text@ == import_lines(imports_view(imports@)),
{
    let ghost all = imports_view(imports@);
    let mut text = String::new();
    let mut index: usize = 0;
    while index < imports.len()
        invariant
            index <= imports.len(),
            all == imports_view(imports@),
            text@ == import_lines(all.take(index as int)),
        decreases imports.len() - index,
    {
        if index > 0 {
            text.append("\n");
        }
        text.append("#import ");
        text.append(imports[index].import_path);
        proof {
            let prefix = all.take(index as int + 1);
            assert(prefix.drop_last() =~= all.take(index as int));
        }
        index += 1;
    }
    assert(all.take(index as int) =~= all);
    text
}

/// Synthesizes the fragment shader of `definition`.
///
/// Fails exactly when some field is unsupported, and then names the first
/// such field.
pub fn fragment_shader(definition: &ShaderDefinition) -> (result: Result<
    ShaderSource,
    SchemaError,
>)
    requires
        FRAGMENT_CONSTANT_PARAMS + definition@.schema.len() <= u32::MAX,
    ensures
        result is Ok <==> all_supported(definition@.schema),
        result is Ok ==> {
            &&& (result->Ok_0).source@ == spec_fragment_source(definition@)
            &&& (result->Ok_0).path@ == spec_fragment_path(definition.uuid)
        },
        result is Err ==> (result->Err_0).describes(definition@.schema),
{
    let params_locations = match schema_params_locations(
        &definition.schema,
        FRAGMENT_CONSTANT_PARAMS,
    ) {
        Ok(text) => text,
        Err(error) => { return Err(error); },
    };
    let imports = format_imports(&definition.imports);

    let mut source = String::from_str("\n");
    if definition.use_time {
        source.append(TIME_IMPORT);
    }
    source.append("\n");
    source.append(imports.as_str());
    source.append("\n\n");
    source.append(VIEW_GROUP);
    if definition.use_time {
        source.append(TIME_GROUP);
    }
    source.append(FRAGMENT_INPUT_HEAD);
    source.append(params_locations.as_str());
    source.append(FRAGMENT_FUNCTION_HEAD);
    source.append(definition.fragment_body.as_str());
    source.append(FRAGMENT_TAIL);

    let mut path = String::from_str(FRAGMENT_PATH);
    push_decimal(&mut path, definition.uuid);
    Ok(ShaderSource { source, path })
}

/// Creates the fragment shader of the shape kind `Shader`.
pub fn create_fragment_shader<Shader: ParameterizedShader>() -> (result: Result<
    ShaderSource,
    SchemaError,
>)
    requires
        FRAGMENT_CONSTANT_PARAMS + <Shader::Params as ShaderParams>::spec_schema().len()
            <= u32::MAX,
    ensures
        result is Ok <==> all_supported(<Shader::Params as ShaderParams>::spec_schema()),
        result is Ok ==> {
            &&& (result->Ok_0).source@ == spec_fragment_source(spec_definition::<Shader>())
            &&& (result->Ok_0).path@ == spec_fragment_path(Shader::UUID)
        },
        result is Err ==> (result->Err_0).describes(
            <Shader::Params as ShaderParams>::spec_schema(),
        ),
{
    let definition = definition::<Shader>();
    fragment_shader(&definition)
}

/// Synthesizes the vertex and the fragment shader of `definition`, in
/// this order.
///
/// Fails exactly when some field is unsupported, and then names the first
/// such field.
pub fn synthesize(definition: &ShaderDefinition) -> (result: Result<
    (ShaderSource, ShaderSource),
    SchemaError,
>)
    requires
        CONSTANT_PARAMS + definition@.schema.len() <= u32::MAX,
    ensures
        result is Ok <==> all_supported(definition@.schema),
        result is Ok ==> {
            &&& (result->Ok_0).0.source@ == spec_vertex_source(definition@)
            &&& (result->Ok_0).0.path@ == spec_vertex_path(definition.uuid)
            &&& (result->Ok_0).1.source@ == spec_fragment_source(definition@)
            &&& (result->Ok_0).1.path@ == spec_fragment_path(definition.uuid)
        },
        result is Err ==> (result->Err_0).describes(definition@.schema),
{
    let vertex = match vertex_shader(definition) {
        Ok(vertex) => vertex,
        Err(error) => { return Err(error); },
    };
    let fragment = match fragment_shader(definition) {
        Ok(fragment) => fragment,
        Err(error) => { return Err(error); },
    };
    Ok((vertex, fragment))
}

} // verus!
