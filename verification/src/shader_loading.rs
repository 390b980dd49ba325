//! The identifiers under which the generated shaders of a shape kind are
//! registered, and what is registered under them.
use vstd::prelude::*;
use crate::fragment_shader::{fragment_shader, spec_fragment_path, spec_fragment_source};
use crate::helpers::{all_supported, SchemaError};
use crate::layout::CONSTANT_PARAMS;
use crate::parameterized_shader::{FragmentImport, ParameterizedShader, ShaderDefinition};
use crate::vertex_shader::{spec_vertex_path, spec_vertex_source, vertex_shader, ShaderSource};

verus! {

/// Offset of the identifiers of vertex shaders.
pub const VERTEX_ID_OFFSET: u128 = 41038750339221851237u128;

/// Offset of the identifiers of fragment shaders.
pub const FRAGMENT_ID_OFFSET: u128 = 24284142412967609353u128;

/// Factor by which the identifier of a shape kind is spread.
pub const ID_FACTOR: u128 = 2875688479;

/// The number derived from `uuid` with `offset`: `offset` plus `uuid`
/// times the factor, modulo 2 to the 128.
pub open spec fn spec_asset_number(offset: u128, uuid: u128) -> u128 {
    ((offset + uuid * ID_FACTOR) % 0x1_0000_0000_0000_0000_0000_0000_0000_0000int) as u128
}

/// 256 to the power of `k`.
pub open spec fn pow256(k: nat) -> nat
    decreases k,
{
    if k == 0 {
        1
    } else {
        256 * pow256((k - 1) as nat)
    }
}

/// The 16 bytes of `value`, the most significant first.
pub open spec fn spec_uuid_bytes(value: u128) -> Seq<u8> {
    Seq::new(16, |i: int| ((value as nat / pow256((15 - i) as nat)) % 256) as u8)
}

/// The bytes of the identifier derived from `uuid` with `offset`.
pub open spec fn spec_asset_id(offset: u128, uuid: u128) -> Seq<u8> {
    spec_uuid_bytes(spec_asset_number(offset, uuid))
}

/// The number derived from `uuid` with `offset`.
pub fn asset_number(offset: u128, uuid: u128) -> (number: u128)
    ensures
        number == spec_asset_number(offset, uuid),
{
    offset.wrapping_add(uuid.wrapping_mul(ID_FACTOR))
}

/// The identifier of a shader asset: a UUID, as its 16 bytes.
#[derive(Clone, Copy, Debug, PartialEq, Eq, Hash)]
pub struct ShaderAssetId {
    pub uuid: [u8; 16],
}

/// `uuid::Uuid::from_u128`, and `uuid::Uuid::into_bytes` on the UUID that
/// it returns.
///
/// The UUID made from a 128-bit value is made of the bytes of the value,
/// the most significant first, and its bytes are handed out as they are.
#[verifier::external_body]
fn uuid_from_u128(value: u128) -> (bytes: [u8; 16])
    ensures
        bytes@ == spec_uuid_bytes(value),
{
    uuid::Uuid::from_u128(value).into_bytes()
}

/// The identifier derived from `uuid` with `offset`.
pub fn asset_id(offset: u128, uuid: u128) -> (id: ShaderAssetId)
    ensures
        id.uuid@ == spec_asset_id(offset, uuid),
{
    ShaderAssetId { uuid: uuid_from_u128(asset_number(offset, uuid)) }
}

/// The identifier of the vertex shader of the shape kind `Shader`.
pub fn get_vertex_asset_id<Shader: ParameterizedShader>() -> (id: ShaderAssetId)
    ensures
        id.uuid@ == spec_asset_id(VERTEX_ID_OFFSET, Shader::UUID),
{
    asset_id(VERTEX_ID_OFFSET, Shader::UUID)
}

/// The identifier of the fragment shader of the shape kind `Shader`.
pub fn get_fragment_asset_id<Shader: ParameterizedShader>() -> (id: ShaderAssetId)
    ensures
        id.uuid@ == spec_asset_id(FRAGMENT_ID_OFFSET, Shader::UUID),
{
    asset_id(FRAGMENT_ID_OFFSET, Shader::UUID)
}

/// A handle to a shader that does not keep the shader alive.
#[derive(Clone, Copy, Debug, PartialEq, Eq, Hash)]
pub struct WeakShaderHandle {
    /// The identifier of the shader.
    pub id: ShaderAssetId,
}

/// A weak handle to the vertex shader of the shape kind `Shader`.
pub fn get_vertex_handle<Shader: ParameterizedShader>() -> (handle: WeakShaderHandle)
    ensures
        handle.id.uuid@ == spec_asset_id(VERTEX_ID_OFFSET, Shader::UUID),
{
    WeakShaderHandle { id: get_vertex_asset_id::<Shader>() }
}

/// A weak handle to the fragment shader of the shape kind `Shader`.
pub fn get_fragment_handle<Shader: ParameterizedShader>() -> (handle: WeakShaderHandle)
    ensures
        handle.id.uuid@ == spec_asset_id(FRAGMENT_ID_OFFSET, Shader::UUID),
{
    WeakShaderHandle { id: get_fragment_asset_id::<Shader>() }
}

/// What registering a shape kind puts into the asset system.
#[derive(Debug)]
pub struct ShaderAssets {
    /// The asset paths of the imported modules, to be loaded, in order.
    pub import_paths: Vec<&'static str>,
    /// The identifier of the vertex shader.
    pub vertex_id: ShaderAssetId,
    pub vertex: ShaderSource,
    /// The identifier of the fragment shader.
    pub fragment_id: ShaderAssetId,
    pub fragment: ShaderSource,
}

/// The asset paths of `imports`, in order.
pub open spec fn import_paths(imports: Seq<FragmentImport>) -> Seq<Seq<char>> {
    Seq::new(imports.len(), |i: int| imports[i].path@)
}

/// The view of each of `paths`.
pub open spec fn paths_view(paths: Seq<&'static str>) -> Seq<Seq<char>> {
    Seq::new(paths.len(), |i: int| paths[i]@)
}

/// Generates the shaders of `definition` and says under which identifiers
/// they go and which modules are to be loaded for them.
///
/// Fails exactly when some field is unsupported, and then names the first
/// such field.
pub fn load_shaders(definition: &ShaderDefinition) -> (result: Result<ShaderAssets, SchemaError>)
    requires
        CONSTANT_PARAMS + definition@.schema.len() <= u32::MAX,
    ensures
        result is Ok <==> all_supported(definition@.schema),
        result is Ok ==> {
            let assets = result->Ok_0;
            &&& paths_view(assets.import_paths@) == import_paths(definition.imports@)
            &&& assets.vertex_id.uuid@ == spec_asset_id(VERTEX_ID_OFFSET, definition.uuid)
            &&& assets.vertex.source@ == spec_vertex_source(definition@)
            &&& assets.vertex.path@ == spec_vertex_path(definition.uuid)
            &&& assets.fragment_id.uuid@ == spec_asset_id(FRAGMENT_ID_OFFSET, definition.uuid)
            &&& assets.fragment.source@ == spec_fragment_source(definition@)
            &&& assets.fragment.path@ == spec_fragment_path(definition.uuid)
        },
        result is Err ==> (result->Err_0).describes(definition@.schema),
{
    let vertex = match vertex_shader(definition) {
        Ok(vertex) => vertex,
        Err(error) => { return Err(error); },
    };
    let mut paths: Vec<&'static str> = Vec::new();
    let mut index: usize = 0;
    while index < definition.imports.len()
        invariant
            index <= definition.imports.len(),
            paths@.len() == index,
            forall|i: int|
                0 <= i < index ==> (#[trigger] paths@[i])@ == definition.imports@[i].path@,
        decreases definition.imports.len() - index,
    {
        paths.push(definition.imports[index].path);
        index += 1;
    }
    let fragment = match fragment_shader(definition) {
        Ok(fragment) => fragment,
        Err(error) => { return Err(error); },
    };
    Ok(
        ShaderAssets {
            import_paths: paths,
            vertex_id: asset_id(VERTEX_ID_OFFSET, definition.uuid),
            vertex,
            fragment_id: asset_id(FRAGMENT_ID_OFFSET, definition.uuid),
            fragment,
        },
    )
}

} // verus!
