//! The render pipeline of a shape kind: its bind-group layout and its
//! descriptor for a given key.
use vstd::prelude::*;
use crate::helpers::{all_supported, SchemaError};
use crate::layout::{plan_layout, spec_layout, VertexBufferLayout, CONSTANT_PARAMS};
use crate::parameterized_shader::ShaderDefinition;
use crate::shader_loading::{
    asset_id, spec_asset_id, WeakShaderHandle, FRAGMENT_ID_OFFSET, VERTEX_ID_OFFSET,
};

verus! {

/// What a uniform binding of the view bind group holds.
#[derive(Clone, Copy, Debug, PartialEq, Eq, Hash, Structural)]
pub enum UniformKind {
    /// The per-view data: the view-projection matrix and the position.
    View,
    /// The global data, with the time.
    Globals,
}

/// One entry of the layout of the view bind group: a uniform buffer that
/// the vertex and the fragment stage see.
#[derive(Clone, Copy, Debug, PartialEq, Eq, Hash, Structural)]
pub struct BindGroupLayoutEntry {
    pub binding: u32,
    pub has_dynamic_offset: bool,
    pub uniform: UniformKind,
}

/// The entries of the layout of the view bind group: the per-view data at
/// binding 0, with a dynamic offset, and, where the time is used, the
/// global data at binding 1.
pub open spec fn spec_view_layout_entries(use_time: bool) -> Seq<BindGroupLayoutEntry> {
    let view = BindGroupLayoutEntry {
        binding: 0,
        has_dynamic_offset: true,
        uniform: UniformKind::View,
    };
    let globals = BindGroupLayoutEntry {
        binding: 1,
        has_dynamic_offset: false,
        uniform: UniformKind::Globals,
    };
    if use_time {
        seq![view, globals]
    } else {
        seq![view]
    }
}

/// The entries of the layout of the view bind group.
pub fn view_layout_entries(use_time: bool) -> (entries: Vec<BindGroupLayoutEntry>)
    ensures
        entries@ == spec_view_layout_entries(use_time),
{
    let mut entries: Vec<BindGroupLayoutEntry> = Vec::new();
    entries.push(
        BindGroupLayoutEntry { binding: 0, has_dynamic_offset: true, uniform: UniformKind::View },
    );
    if use_time {
        entries.push(
            BindGroupLayoutEntry {
                binding: 1,
                has_dynamic_offset: false,
                uniform: UniformKind::Globals,
            },
        );
    }
    entries
}

/// The bind-group layout has one entry for each uniform binding that the
/// fragment source declares.
pub proof fn lemma_bindings_agree(use_time: bool)
    ensures
        spec_view_layout_entries(use_time).len() == crate::fragment_shader::spec_binding_count(
            use_time,
        ),
        forall|i: int|
            0 <= i < spec_view_layout_entries(use_time).len() ==> (
            #[trigger] spec_view_layout_entries(use_time)[i]).binding == i,
{
}

/// How the vertices of a draw call form primitives.
#[derive(Clone, Copy, Debug, PartialEq, Eq, Hash, Structural)]
pub enum PrimitiveTopology {
    PointList,
    LineList,
    LineStrip,
    TriangleList,
    TriangleStrip,
}

/// The part of a pipeline key that the mesh decides.
#[derive(Clone, Copy, Debug, PartialEq, Eq, Hash, Structural)]
pub struct PipelineKey {
    pub msaa_samples: u32,
    pub primitive_topology: PrimitiveTopology,
}

/// What a pipeline is specialized for.
#[derive(Clone, Copy, Debug, PartialEq, Eq, Hash, Structural)]
pub struct ShaderPipelineKey {
    pub mesh: PipelineKey,
    /// Whether the view renders to a high-dynamic-range target.
    pub hdr: bool,
}

/// The key of the pipeline that draws shapes into a view: each instance
/// is a quad drawn as a triangle strip.
pub fn shape_pipeline_key(msaa_samples: u32, hdr: bool) -> (key: ShaderPipelineKey)
    ensures
        key == (ShaderPipelineKey {
            mesh: PipelineKey {
                msaa_samples,
                primitive_topology: PrimitiveTopology::TriangleStrip,
            },
            hdr,
        }),
{
    ShaderPipelineKey {
        mesh: PipelineKey { msaa_samples, primitive_topology: PrimitiveTopology::TriangleStrip },
        hdr,
    }
}

/// The format of the texture that a pipeline renders to.
#[derive(Clone, Copy, Debug, PartialEq, Eq, Hash, Structural)]
pub enum TargetFormat {
    /// The format of high-dynamic-range view targets.
    Hdr,
    /// The engine's default format.
    Sdr,
}

/// The label of the pipeline.
pub const PIPELINE_LABEL: &'static str = "param_shader_pipeline";

/// The entry point of the vertex stage.
pub const VERTEX_ENTRY_POINT: &'static str = "vertex";

/// The entry point of the fragment stage.
pub const FRAGMENT_ENTRY_POINT: &'static str = "fragment";

/// What a render pipeline of a shape kind is made from.
#[derive(Debug)]
pub struct RenderPipelineDescriptor {
    pub label: &'static str,
    pub vertex_shader: WeakShaderHandle,
    pub vertex_entry_point: &'static str,
    /// The layout of the one vertex buffer, which is stepped per instance.
    pub buffer: VertexBufferLayout,
    pub fragment_shader: WeakShaderHandle,
    pub fragment_entry_point: &'static str,
    pub target_format: TargetFormat,
    pub topology: PrimitiveTopology,
    pub sample_count: u32,
}

/// The target format for a key.
pub open spec fn spec_target_format(hdr: bool) -> TargetFormat {
    if hdr {
        TargetFormat::Hdr
    } else {
        TargetFormat::Sdr
    }
}

/// Describes the pipeline of `definition` for `key`.
///
/// Fails exactly when some field of the schema is unsupported, and then
/// names the first such field.
pub fn specialize(definition: &ShaderDefinition, key: ShaderPipelineKey) -> (result: Result<
    RenderPipelineDescriptor,
    SchemaError,
>)
    requires
        CONSTANT_PARAMS + definition@.schema.len() <= u32::MAX,
    ensures
        result is Ok <==> all_supported(definition@.schema),
        result is Ok ==> {
            let descriptor = result->Ok_0;
            &&& descriptor.label@ == PIPELINE_LABEL@
            &&& descriptor.vertex_shader.id.uuid@ == spec_asset_id(
                VERTEX_ID_OFFSET,
                definition.uuid,
            )
            &&& descriptor.vertex_entry_point@ == VERTEX_ENTRY_POINT@
            &&& descriptor.buffer@ == spec_layout(definition@.schema)
            &&& descriptor.fragment_shader.id.uuid@ == spec_asset_id(
                FRAGMENT_ID_OFFSET,
                definition.uuid,
            )
            &&& descriptor.fragment_entry_point@ == FRAGMENT_ENTRY_POINT@
            &&& descriptor.target_format == spec_target_format(key.hdr)
            &&& descriptor.topology == key.mesh.primitive_topology
            &&& descriptor.sample_count == key.mesh.msaa_samples
        },
        result is Err ==> (result->Err_0).describes(definition@.schema),
{
    let buffer = match plan_layout(&definition.schema) {
        Ok(buffer) => buffer,
        Err(error) => { return Err(error); },
    };
    Ok(
        RenderPipelineDescriptor {
            label: PIPELINE_LABEL,
            vertex_shader: WeakShaderHandle { id: asset_id(VERTEX_ID_OFFSET, definition.uuid) },
            vertex_entry_point: VERTEX_ENTRY_POINT,
            buffer,
            fragment_shader: WeakShaderHandle {
                id: asset_id(FRAGMENT_ID_OFFSET, definition.uuid),
            },
            fragment_entry_point: FRAGMENT_ENTRY_POINT,
            target_format: if key.hdr {
                TargetFormat::Hdr
            } else {
                TargetFormat::Sdr
            },
            topology: key.mesh.primitive_topology,
            sample_count: key.mesh.msaa_samples,
        },
    )
}

} // verus!
