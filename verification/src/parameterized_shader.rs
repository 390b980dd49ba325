//! Shader definitions: what a shape kind gives the renderer.
use vstd::prelude::*;
use vstd::std_specs::convert::FromSpecImpl;
use crate::shader_params::{FieldSpec, Schema, ShaderParams};

verus! {

/// An import of a fragment shader in the model.
pub struct ImportSpec {
    pub path: Seq<char>,
    pub import_path: Seq<char>,
}

/// A shader module that a fragment shader imports.
#[derive(Clone, Copy, Debug)]
pub struct FragmentImport {
    /// Where the asset system finds the module.
    pub path: &'static str,
    /// The name under which the module is imported.
    pub import_path: &'static str,
}

impl View for FragmentImport {
    type V = ImportSpec;

    open spec fn view(&self) -> ImportSpec {
        ImportSpec { path: self.path@, import_path: self.import_path@ }
    }
}

/// The imports of a sequence of declarations, in order.
pub open spec fn imports_view(imports: Seq<FragmentImport>) -> Seq<ImportSpec> {
    imports.map_values(|i: FragmentImport| i@)
}

/// A fragment body made of a distance, an alpha computed from it and a
/// colour.
#[derive(Debug, Clone, Copy)]
pub struct SDFAlphaCall {
    /// An 'f32' expression
    pub sdf: &'static str,
    /// An 'f32' expression
    /// This may use the 'd' parameter
    pub fill_alpha: &'static str,
    /// A 'vec4<f32>' expression
    pub color: &'static str,
}

impl SDFAlphaCall {
    /// The source of the fragment body.
    pub open spec fn spec_source(self) -> Seq<char> {
        "let d = "@ + self.sdf@ + ";\n        let a = "@ + self.fill_alpha@
            + ";\n        let c = "@ + self.color@
            + ";\n        return vec4<f32>(c.rgb, c.a * a);\n        "@
    }

    /// The source of the fragment body.
    pub fn source(self) -> (text: String)
        ensures
            text@ == self.spec_source(),
    {
        let mut text = String::from_str("let d = ");
        text.append(self.sdf);
        text.append(";\n        let a = ");
        text.append(self.fill_alpha);
        text.append(";\n        let c = ");
        text.append(self.color);
        text.append(";\n        return vec4<f32>(c.rgb, c.a * a);\n        ");
        text
    }
}

impl From<SDFAlphaCall> for String {
    fn from(val: SDFAlphaCall) -> (text: String)
        ensures
            text@ == val.spec_source(),
    {
        val.source()
    }
}

impl FromSpecImpl<SDFAlphaCall> for String {
    open spec fn obeys_from_spec() -> bool {
        false
    }

    open spec fn from_spec(v: SDFAlphaCall) -> String {
        arbitrary()
    }
}

/// A fragment body made of a distance and a colour computed from it.
#[derive(Debug, Clone, Copy)]
pub struct SDFColorCall {
    /// An 'f32' expression
    pub sdf: &'static str,
    /// A 'vec4<f32>' expression
    /// This may use the 'd' parameter
    pub fill_color: &'static str,
}

impl SDFColorCall {
    /// The source of the fragment body.
    pub open spec fn spec_source(self) -> Seq<char> {
        "let d = "@ + self.sdf@ + ";\n        let c = "@ + self.fill_color@
            + ";\n        return c;\n        "@
    }

    /// The source of the fragment body.
    pub fn source(self) -> (text: String)
        ensures
            text@ == self.spec_source(),
    {
        let mut text = String::from_str("let d = ");
        text.append(self.sdf);
        text.append(";\n        let c = ");
        text.append(self.fill_color);
        text.append(";\n        return c;\n        ");
        text
    }
}

impl From<SDFColorCall> for String {
    fn from(val: SDFColorCall) -> (text: String)
        ensures
            text@ == val.spec_source(),
    {
        val.source()
    }
}

impl FromSpecImpl<SDFColorCall> for String {
    open spec fn obeys_from_spec() -> bool {
        false
    }

    open spec fn from_spec(v: SDFColorCall) -> String {
        arbitrary()
    }
}

/// A shader definition in the model.
pub struct DefinitionSpec {
    pub uuid: u128,
    pub type_path: Seq<char>,
    pub schema: Seq<FieldSpec>,
    pub fragment_body: Seq<char>,
    pub frame_expression: Seq<char>,
    pub imports: Seq<ImportSpec>,
    pub use_time: bool,
}

/// The definition of one shape kind: what its shaders are made from.
#[derive(Clone, Debug)]
pub struct ShaderDefinition {
    /// The stable identifier of the shape kind.
    pub uuid: u128,
    /// The path of the type that defines the shape kind.
    pub type_path: String,
    /// The parameter schema.
    pub schema: Schema,
    /// The body of the fragment function: it reads `in.pos` and one member
    /// of `in` for each field, and returns a `vec4<f32>` colour.
    pub fragment_body: String,
    /// An expression for the half-width and half-height of the frame, a
    /// `vec2<f32>`.
    pub frame_expression: String,
    /// The modules that the fragment shader imports.
    pub imports: Vec<FragmentImport>,
    /// Whether the fragment shader reads the global time.
    pub use_time: bool,
}

impl View for ShaderDefinition {
    type V = DefinitionSpec;

    open spec fn view(&self) -> DefinitionSpec {
        DefinitionSpec {
            uuid: self.uuid,
            type_path: self.type_path@,
            schema: self.schema@,
            fragment_body: self.fragment_body@,
            frame_expression: self.frame_expression@,
            imports: imports_view(self.imports@),
            use_time: self.use_time,
        }
    }
}

/// A particular shader
pub trait ParameterizedShader: Sized {
    type Params: ShaderParams;

    /// What `fragment_body` returns.
    spec fn spec_fragment_body() -> Seq<char>;

    /// What `frame_expression` returns.
    spec fn spec_frame_expression() -> Seq<char>;

    /// What `imports` returns.
    spec fn spec_imports() -> Seq<ImportSpec>;

    /// What `type_path` returns.
    spec fn spec_type_path() -> Seq<char>;

    /// Get the body of the fragment shader fragment function.
    /// This will take an `in` argument with a `pos` parameter and one
    /// parameter for each field.
    /// It should return `vec4<f32>` representing the color of the pixel.
    fn fragment_body() -> (body: String)
        ensures
            body@ == Self::spec_fragment_body(),
    ;

    /// An expression that returns a `vec2<f32>` representing the half-width
    /// and half-height of the frame
    fn frame_expression() -> (expression: String)
        ensures
            expression@ == Self::spec_frame_expression(),
    ;

    /// Get imports
    fn imports() -> (imports: Vec<FragmentImport>)
        ensures
            imports_view(imports@) == Self::spec_imports(),
    ;

    /// The path of the type.
    fn type_path() -> (path: String)
        ensures
            path@ == Self::spec_type_path(),
    ;

    const USE_TIME: bool = false;

    const UUID: u128;
}

/// The definition that the shape kind `Shader` gives.
pub open spec fn spec_definition<Shader: ParameterizedShader>() -> DefinitionSpec {
    DefinitionSpec {
        uuid: Shader::UUID,
        type_path: Shader::spec_type_path(),
        schema: <Shader::Params as ShaderParams>::spec_schema(),
        fragment_body: Shader::spec_fragment_body(),
        frame_expression: Shader::spec_frame_expression(),
        imports: Shader::spec_imports(),
        use_time: Shader::USE_TIME,
    }
}

/// A set of parameters that will be extracted to `ShaderParams` and drawn
/// with a particular shader
pub trait ExtractToShader: Sized {
    type Shader: ParameterizedShader;

    /// What is read from one entity.
    type ParamsQuery;

    /// What is read from the resources that all entities share.
    type ResourceParams;

    /// The parameters of the entity that `query_item` was read from: a
    /// function of the two arguments alone.
    spec fn spec_get_params(query_item: Self::ParamsQuery, resource: Self::ResourceParams) -> <
        Self::Shader as ParameterizedShader
    >::Params;

    /// The parameters of the entity that `query_item` was read from.
    fn get_params(query_item: &Self::ParamsQuery, resource: &Self::ResourceParams) -> (params: <
        Self::Shader as ParameterizedShader
    >::Params)
        ensures
            params == Self::spec_get_params(*query_item, *resource),
    ;
}

/// Collects the definition of the shape kind `Shader`.
pub fn definition<Shader: ParameterizedShader>() -> (definition: ShaderDefinition)
    ensures
        definition@ == spec_definition::<Shader>(),
{
    ShaderDefinition {
        uuid: Shader::UUID,
        type_path: Shader::type_path(),
        schema: <Shader::Params as ShaderParams>::schema(),
        fragment_body: Shader::fragment_body(),
        frame_expression: Shader::frame_expression(),
        imports: Shader::imports(),
        use_time: Shader::USE_TIME,
    }
}

} // verus!
