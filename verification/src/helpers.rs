//! The mapping from field types to GPU formats and shader type names, and
//! the location declarations that both shader stages share.
use vstd::prelude::*;
use crate::shader_params::{FieldSpec, FieldType, Schema, ShaderParams};
use crate::text::{decimal, push_decimal};
use crate::vertex_format::VertexFormat;

verus! {

/// The GPU vertex format of a field type; `None` for an unsupported type.
pub open spec fn spec_vertex_format(ty: FieldType) -> Option<VertexFormat> {
    match ty {
        FieldType::F32 => Some(VertexFormat::Float32),
        FieldType::U32 => Some(VertexFormat::Uint32),
        FieldType::I32 => Some(VertexFormat::Sint32),
        FieldType::Vec2 => Some(VertexFormat::Float32x2),
        FieldType::Vec3 => Some(VertexFormat::Float32x3),
        FieldType::Vec4 => Some(VertexFormat::Float32x4),
        FieldType::LinearRgba => Some(VertexFormat::Float32x4),
        _ => None,
    }
}

/// The shader-language name of a vertex format.
pub open spec fn spec_wgsl_format_name(format: VertexFormat) -> Seq<char> {
    match format {
        VertexFormat::Float32 => "f32"@,
        VertexFormat::Float32x2 => "vec2<f32>"@,
        VertexFormat::Float32x3 => "vec3<f32>"@,
        VertexFormat::Float32x4 => "vec4<f32>"@,
        VertexFormat::Uint32 => "u32"@,
        VertexFormat::Uint32x2 => "vec2<u32>"@,
        VertexFormat::Uint32x3 => "vec3<u32>"@,
        VertexFormat::Uint32x4 => "vec4<u32>"@,
        VertexFormat::Sint32 => "i32"@,
        VertexFormat::Sint32x2 => "vec2<i32>"@,
        VertexFormat::Sint32x3 => "vec3<i32>"@,
        VertexFormat::Sint32x4 => "vec4<i32>"@,
        VertexFormat::Float64 => "f64"@,
        VertexFormat::Float64x2 => "vec2<f64>"@,
        VertexFormat::Float64x3 => "vec3<f64>"@,
        VertexFormat::Float64x4 => "vec4<f64>"@,
    }
}

/// The shader-language name of a field type; `None` for an unsupported type.
pub open spec fn spec_wgsl_type_name(ty: FieldType) -> Option<Seq<char>> {
    match spec_vertex_format(ty) {
        Some(format) => Some(spec_wgsl_format_name(format)),
        None => None,
    }
}

/// Whether the GPU can take a field of type `ty`.
pub open spec fn is_supported(ty: FieldType) -> bool {
    spec_vertex_format(ty) is Some
}

/// Whether the GPU can take every field of `schema`.
pub open spec fn all_supported(schema: Seq<FieldSpec>) -> bool {
    forall|i: int| 0 <= i < schema.len() ==> is_supported((#[trigger] schema[i]).ty)
}

/// Whether `index` is the first field of `schema` that the GPU cannot take.
pub open spec fn is_first_unsupported(schema: Seq<FieldSpec>, index: int) -> bool {
    &&& 0 <= index < schema.len()
    &&& !is_supported(schema[index].ty)
    &&& forall|j: int| 0 <= j < index ==> is_supported((#[trigger] schema[j]).ty)
}

/// The GPU vertex format of a field type; `None` for an unsupported type.
pub fn get_vertex_format(ty: FieldType) -> (format: Option<VertexFormat>)
    ensures
        format == spec_vertex_format(ty),
{
    match ty {
        FieldType::F32 => Some(VertexFormat::Float32),
        FieldType::U32 => Some(VertexFormat::Uint32),
        FieldType::I32 => Some(VertexFormat::Sint32),
        FieldType::Vec2 => Some(VertexFormat::Float32x2),
        FieldType::Vec3 => Some(VertexFormat::Float32x3),
        FieldType::Vec4 => Some(VertexFormat::Float32x4),
        FieldType::LinearRgba => Some(VertexFormat::Float32x4),
        _ => None,
    }
}

/// The shader-language name of a field type; `None` for an unsupported type.
pub fn get_wgsl_type_name(ty: FieldType) -> (name: Option<&'static str>)
    ensures
        name is Some <==> is_supported(ty),
        name is Some ==> Some(name->0@) == spec_wgsl_type_name(ty),
{
    let vertex_format = match get_vertex_format(ty) {
        Some(format) => format,
        None => { return None; },
    };
    match vertex_format {
        VertexFormat::Float32 => Some("f32"),
        VertexFormat::Float32x2 => Some("vec2<f32>"),
        VertexFormat::Float32x3 => Some("vec3<f32>"),
        VertexFormat::Float32x4 => Some("vec4<f32>"),
        VertexFormat::Uint32 => Some("u32"),
        VertexFormat::Uint32x2 => Some("vec2<u32>"),
        VertexFormat::Uint32x3 => Some("vec3<u32>"),
        VertexFormat::Uint32x4 => Some("vec4<u32>"),
        VertexFormat::Sint32 => Some("i32"),
        VertexFormat::Sint32x2 => Some("vec2<i32>"),
        VertexFormat::Sint32x3 => Some("vec3<i32>"),
        VertexFormat::Sint32x4 => Some("vec4<i32>"),
        VertexFormat::Float64 => Some("f64"),
        VertexFormat::Float64x2 => Some("vec2<f64>"),
        VertexFormat::Float64x3 => Some("vec3<f64>"),
        VertexFormat::Float64x4 => Some("vec4<f64>"),
    }
}

/// A schema that the GPU cannot take: its first unsupported field.
#[derive(Clone, Debug)]
pub struct SchemaError {
    /// Position of the field in the schema.
    pub index: usize,
    /// Name of the field.
    pub name: String,
    /// Type of the field.
    pub ty: FieldType,
}

impl SchemaError {
    /// Whether the error names the first unsupported field of `schema`.
    pub open spec fn describes(&self, schema: Seq<FieldSpec>) -> bool {
        &&& is_first_unsupported(schema, self.index as int)
        &&& self.name@ == schema[self.index as int].name
        &&& self.ty == schema[self.index as int].ty
    }

    /// The text of the diagnostic.
    pub open spec fn spec_message(&self) -> Seq<char> {
        "Cannot convert field `"@ + self.name@ + "` of type "@ + self.ty.spec_type_path()
            + " to wgsl type"@
    }

    /// The diagnostic: it names the field and its type.
    pub fn message(&self) -> (text: String)
        ensures
            text@ == self.spec_message(),
    {
        let mut text = String::from_str("Cannot convert field `");
        text.append(self.name.as_str());
        text.append("` of type ");
        text.append(self.ty.type_path());
        text.append(" to wgsl type");
        text
    }
}

impl Schema {
    /// Checks that the GPU can take every field.
    ///
    /// Fails exactly when some field is unsupported, and then names the
    /// first such field.
    pub fn check(&self) -> (result: Result<(), SchemaError>)
        ensures
            result is Ok <==> all_supported(self@),
            result is Err ==> (result->Err_0).describes(self@),
    {
        let mut index: usize = 0;
        while index < self.fields.len()
            invariant
                index <= self.fields.len(),
                forall|j: int| 0 <= j < index ==> is_supported((#[trigger] self@[j]).ty),
            decreases self.fields.len() - index,
        {
            let field = &self.fields[index];
            if get_vertex_format(field.ty).is_none() {
                assert(!is_supported(self@[index as int].ty));
                return Err(SchemaError { index, name: field.name.clone(), ty: field.ty });
            }
            index += 1;
        }
        Ok(())
    }
}

/// The locations of `count` fields that come after `first` fixed locations:
/// consecutive, in field order. Both shader stages and the vertex-buffer
/// layout number the fields by it.
pub open spec fn field_locations(count: nat, first: nat) -> Seq<nat> {
    Seq::new(count, |i: int| (first + i) as nat)
}

/// One location declaration of a shader struct.
pub open spec fn location_line(location: nat, name: Seq<char>, wgsl_type: Seq<char>) -> Seq<
    char,
> {
    "@location("@ + decimal(location) + ") "@ + name + ": "@ + wgsl_type + ",\n"@
}

/// The location declarations of the fields of `schema`, the first of them
/// at location `first`, each field one location after the one before it.
pub open spec fn params_locations(schema: Seq<FieldSpec>, first: nat) -> Seq<char>
    decreases schema.len(),
{
    if schema.len() == 0 {
        Seq::empty()
    } else {
        params_locations(schema.drop_last(), first) + location_line(
            field_locations(schema.len(), first).last(),
            schema.last().name,
            spec_wgsl_type_name(schema.last().ty).unwrap(),
        )
    }
}

/// The location declarations of the fields of `schema`, after
/// `previous_params` fixed locations.
///
/// Fails exactly when some field is unsupported, and then names the first
/// such field.
pub fn schema_params_locations(schema: &Schema, previous_params: u32) -> (result: Result<
    String,
    SchemaError,
>)
    requires
        previous_params + schema@.len() <= u32::MAX,
    ensures
        result is Ok <==> all_supported(schema@),
        result is Ok ==> (result->Ok_0)@ == params_locations(schema@, previous_params as nat),
        result is Err ==> (result->Err_0).describes(schema@),
{
    let mut result = String::new();
    let param_count = schema.field_len();
    let mut loc: u32 = previous_params;
    let mut index: usize = 0;
    while index < param_count
        invariant
            param_count == schema@.len(),
            index <= param_count,
            previous_params + schema@.len() <= u32::MAX,
            loc == previous_params + index,
            forall|j: int| 0 <= j < index ==> is_supported((#[trigger] schema@[j]).ty),
            result@ == params_locations(schema@.take(index as int), previous_params as nat),
        decreases param_count - index,
    {
        let field = &schema.fields[index];
        let wgsl_type = match get_wgsl_type_name(field.ty) {
            Some(wgsl_type) => wgsl_type,
            None => {
                return Err(SchemaError { index, name: field.name.clone(), ty: field.ty });
            },
        };
        result.append("@location(");
        push_decimal(&mut result, loc as u128);
        result.append(") ");
        result.append(field.name.as_str());
        result.append(": ");
        result.append(wgsl_type);
        result.append(",\n");
        proof {
            let prefix = schema@.take(index as int + 1);
            assert(prefix.drop_last() =~= schema@.take(index as int));
        }
        loc += 1;
        index += 1;
    }
    assert(schema@.take(index as int) =~= schema@);
    Ok(result)
}

/// The location declarations of the fields of `PARAMS`, after
/// `previous_params` fixed locations.
///
/// Fails exactly when some field is unsupported, and then names the first
/// such field.
pub fn format_params_locations<PARAMS: ShaderParams>(previous_params: u32) -> (result: Result<
    String,
    SchemaError,
>)
    requires
        previous_params + PARAMS::spec_schema().len() <= u32::MAX,
    ensures
        result is Ok <==> all_supported(PARAMS::spec_schema()),
        result is Ok ==> (result->Ok_0)@ == params_locations(
            PARAMS::spec_schema(),
            previous_params as nat,
        ),
        result is Err ==> (result->Err_0).describes(PARAMS::spec_schema()),
{
    let proxy = PARAMS::schema();
    schema_params_locations(&proxy, previous_params)
}

} // verus!
