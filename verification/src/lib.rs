//! Engine-independent core of a renderer for parameterised 2D shapes drawn
//! by signed-distance-field shaders.
//!
//! A shape kind declares a parameter schema and the text of its fragment
//! body. From that the library makes the source of both shader stages and
//! the layout of the per-instance vertex buffer, numbered alike. Each
//! frame it packs the visible instances, sorts them by depth, cuts them
//! into batches of one depth, and joins the batches that are next to each
//! other in the render queue.

pub mod check_shapes;
pub mod draw;
pub mod extract;
pub mod fragment_shader;
pub mod helpers;
pub mod instance;
pub mod layout;
pub mod merge;
pub mod parameterized_shader;
pub mod prepare;
pub mod primitives;
pub mod queue;
pub mod registry;
pub mod shader_loading;
pub mod shader_params;
pub mod shader_pipeline;
pub mod text;
pub mod vertex_format;
pub mod vertex_shader;

pub use crate::instance::ShapeVertex;
pub use crate::parameterized_shader::{
    ExtractToShader, FragmentImport, ParameterizedShader, SDFAlphaCall, SDFColorCall,
    ShaderDefinition,
};
pub use crate::shader_params::{ColorParams, FieldType, NoParams, ParamField, Schema, ShaderParams};
