use param_shaders::helpers::{
    format_params_locations, get_vertex_format, get_wgsl_type_name, schema_params_locations,
};
use param_shaders::instance::{read_attribute, ShapeVertex};
use param_shaders::layout::{plan_layout, VertexAttribute, VertexStepMode};
use param_shaders::primitives::{RectShaderParams, RoundedRectWithBorderShaderParams};
use param_shaders::shader_params::{
    ColorParams, FieldType, NoParams, ParamField, ParamValue, Schema, ShaderParams,
};
use param_shaders::vertex_format::VertexFormat;

fn schema_of(fields: &[(&str, FieldType)]) -> Schema {
    Schema::new(fields.iter().map(|(name, ty)| ParamField::new(name, *ty)).collect())
}

#[test]
fn format_mapper_covers_the_supported_types() {
    assert_eq!(get_vertex_format(FieldType::F32), Some(VertexFormat::Float32));
    assert_eq!(get_vertex_format(FieldType::U32), Some(VertexFormat::Uint32));
    assert_eq!(get_vertex_format(FieldType::I32), Some(VertexFormat::Sint32));
    assert_eq!(get_vertex_format(FieldType::Vec2), Some(VertexFormat::Float32x2));
    assert_eq!(get_vertex_format(FieldType::Vec3), Some(VertexFormat::Float32x3));
    assert_eq!(get_vertex_format(FieldType::Vec4), Some(VertexFormat::Float32x4));
    assert_eq!(get_vertex_format(FieldType::LinearRgba), Some(VertexFormat::Float32x4));
}

#[test]
fn format_mapper_rejects_other_types() {
    for ty in [FieldType::F64, FieldType::U64, FieldType::I64, FieldType::Bool, FieldType::Text] {
        assert_eq!(get_vertex_format(ty), None);
        assert_eq!(get_wgsl_type_name(ty), None);
    }
}

#[test]
fn wgsl_names_of_the_supported_types() {
    assert_eq!(get_wgsl_type_name(FieldType::F32), Some("f32"));
    assert_eq!(get_wgsl_type_name(FieldType::U32), Some("u32"));
    assert_eq!(get_wgsl_type_name(FieldType::I32), Some("i32"));
    assert_eq!(get_wgsl_type_name(FieldType::Vec2), Some("vec2<f32>"));
    assert_eq!(get_wgsl_type_name(FieldType::Vec3), Some("vec3<f32>"));
    assert_eq!(get_wgsl_type_name(FieldType::Vec4), Some("vec4<f32>"));
    assert_eq!(get_wgsl_type_name(FieldType::LinearRgba), Some("vec4<f32>"));
}

#[test]
fn format_sizes() {
    assert_eq!(VertexFormat::Float32.size(), 4);
    assert_eq!(VertexFormat::Float32x2.size(), 8);
    assert_eq!(VertexFormat::Float32x3.size(), 12);
    assert_eq!(VertexFormat::Float32x4.size(), 16);
    assert_eq!(VertexFormat::Uint32x3.size(), 12);
    assert_eq!(VertexFormat::Sint32x4.size(), 16);
    assert_eq!(VertexFormat::Float64.size(), 8);
    assert_eq!(VertexFormat::Float64x4.size(), 32);
    assert_eq!(VertexFormat::Float64x3.words(), 6);
}

#[test]
fn layout_of_the_empty_schema() {
    let layout = plan_layout(&NoParams::schema()).unwrap();
    assert_eq!(layout.array_stride, 24);
    assert_eq!(layout.step_mode, VertexStepMode::Instance);
    assert_eq!(
        layout.attributes,
        vec![
            VertexAttribute { format: VertexFormat::Float32x2, offset: 0, shader_location: 0 },
            VertexAttribute { format: VertexFormat::Float32x3, offset: 8, shader_location: 1 },
            VertexAttribute { format: VertexFormat::Float32, offset: 20, shader_location: 2 },
        ]
    );
}

#[test]
fn layout_packs_fields_tightly() {
    let layout = plan_layout(&RoundedRectWithBorderShaderParams::schema()).unwrap();
    let fields: Vec<(VertexFormat, u64, u32)> = layout.attributes[3..]
        .iter()
        .map(|a| (a.format, a.offset, a.shader_location))
        .collect();
    assert_eq!(
        fields,
        vec![
            (VertexFormat::Float32, 24, 3),
            (VertexFormat::Float32, 28, 4),
            (VertexFormat::Float32, 32, 5),
            (VertexFormat::Float32x4, 36, 6),
            (VertexFormat::Float32x4, 52, 7),
            (VertexFormat::Float32, 68, 8),
        ]
    );
    assert_eq!(layout.array_stride, 72);
}

#[test]
fn layout_of_every_supported_type() {
    let schema = schema_of(&[
        ("a", FieldType::F32),
        ("b", FieldType::U32),
        ("c", FieldType::I32),
        ("d", FieldType::Vec2),
        ("e", FieldType::Vec3),
        ("f", FieldType::Vec4),
        ("g", FieldType::LinearRgba),
    ]);
    let layout = plan_layout(&schema).unwrap();
    let offsets: Vec<u64> = layout.attributes.iter().map(|a| a.offset).collect();
    assert_eq!(offsets, vec![0, 8, 20, 24, 28, 32, 36, 44, 56, 72]);
    assert_eq!(layout.array_stride, 88);
}

#[test]
fn color_parameter_schema() {
    let schema = ColorParams::schema();
    assert_eq!(schema.field_len(), 1);
    assert_eq!(schema.name_at(0), Some("color"));
    assert_eq!(schema.field_at(0), Some(FieldType::LinearRgba));
    assert_eq!(schema.name_at(1), None);
    assert_eq!(schema.field_at(1), None);
    // the fragment input struct: one location beyond the fixed `pos`
    let locations = format_params_locations::<ColorParams>(1).unwrap();
    assert_eq!(locations, "@location(1) color: vec4<f32>,\n");
    let layout = plan_layout(&schema).unwrap();
    assert_eq!(layout.attributes.len(), 4);
    assert_eq!(
        layout.attributes[3],
        VertexAttribute { format: VertexFormat::Float32x4, offset: 24, shader_location: 3 }
    );
    assert_eq!(layout.array_stride, 40);
}

#[test]
fn locations_of_the_layout_and_of_the_shaders_agree() {
    let schema = RectShaderParams::schema();
    let layout = plan_layout(&schema).unwrap();
    let vertex_text = schema_params_locations(&schema, 3).unwrap();
    let fragment_text = schema_params_locations(&schema, 1).unwrap();
    assert_eq!(
        vertex_text,
        "@location(3) color: vec4<f32>,\n@location(4) width: f32,\n@location(5) height: f32,\n"
    );
    assert_eq!(
        fragment_text,
        "@location(1) color: vec4<f32>,\n@location(2) width: f32,\n@location(3) height: f32,\n"
    );
    let vertex_lines: Vec<&str> = vertex_text.lines().collect();
    let fragment_lines: Vec<&str> = fragment_text.lines().collect();
    assert_eq!(vertex_lines.len(), schema.field_len());
    assert_eq!(fragment_lines.len(), schema.field_len());
    assert_eq!(layout.attributes.len(), 3 + schema.field_len());
    for i in 0..schema.field_len() {
        let attribute = layout.attributes[3 + i];
        let name = schema.name_at(i).unwrap();
        let wgsl = get_wgsl_type_name(schema.field_at(i).unwrap()).unwrap();
        assert_eq!(
            vertex_lines[i],
            format!("@location({}) {}: {},", attribute.shader_location, name, wgsl)
        );
        assert_eq!(
            fragment_lines[i],
            format!("@location({}) {}: {},", attribute.shader_location - 3 + 1, name, wgsl)
        );
    }
}

#[test]
fn locations_with_many_digits() {
    let schema = schema_of(&[("x", FieldType::F32), ("y", FieldType::U32)]);
    assert_eq!(
        schema_params_locations(&schema, 99).unwrap(),
        "@location(99) x: f32,\n@location(100) y: u32,\n"
    );
    assert_eq!(schema_params_locations(&Schema::empty(), 7).unwrap(), "");
}

#[test]
fn packing_round_trip() {
    let schema = schema_of(&[
        ("a", FieldType::F32),
        ("b", FieldType::U32),
        ("c", FieldType::I32),
        ("d", FieldType::Vec2),
        ("e", FieldType::Vec3),
        ("f", FieldType::Vec4),
        ("g", FieldType::LinearRgba),
    ]);
    let params = vec![
        ParamValue::F32(1.5f32.to_bits()),
        ParamValue::U32(0xdead_beef),
        ParamValue::I32(-7),
        ParamValue::Vec2(0.25f32.to_bits(), (-0.0f32).to_bits()),
        ParamValue::Vec3(1, 2, 3),
        ParamValue::Vec4(f32::NAN.to_bits(), f32::INFINITY.to_bits(), 0, u32::MAX),
        ParamValue::LinearRgba(
            1.0f32.to_bits(),
            0.5f32.to_bits(),
            0.25f32.to_bits(),
            1.0f32.to_bits(),
        ),
    ];
    let vertex = ShapeVertex::new(
        (1.0f32.to_bits(), 0.0f32.to_bits()),
        (3.0f32.to_bits(), 4.0f32.to_bits(), 5.0f32.to_bits()),
        2.0f32.to_bits(),
        params.clone(),
    );
    let layout = plan_layout(&schema).unwrap();
    let bytes = vertex.pack();
    assert_eq!(bytes.len() as u64, layout.array_stride);
    let read = |k: usize| read_attribute(&bytes, &layout.attributes[k]).unwrap();
    assert_eq!(read(0), vec![1.0f32.to_bits(), 0.0f32.to_bits()]);
    assert_eq!(read(1), vec![3.0f32.to_bits(), 4.0f32.to_bits(), 5.0f32.to_bits()]);
    assert_eq!(read(2), vec![2.0f32.to_bits()]);
    assert_eq!(read(3), vec![1.5f32.to_bits()]);
    assert_eq!(read(4), vec![0xdead_beef]);
    assert_eq!(read(5), vec![(-7i32) as u32]);
    assert_eq!(read(6), vec![0.25f32.to_bits(), 0x8000_0000]);
    assert_eq!(read(7), vec![1, 2, 3]);
    assert_eq!(read(8), vec![f32::NAN.to_bits(), f32::INFINITY.to_bits(), 0, u32::MAX]);
    assert_eq!(
        read(9),
        vec![1.0f32.to_bits(), 0.5f32.to_bits(), 0.25f32.to_bits(), 1.0f32.to_bits()]
    );
    // bit for bit: the floats that come back are the floats that went in
    assert_eq!(f32::from_bits(read(3)[0]), 1.5);
    assert_eq!(read(5)[0] as i32, -7);
}

#[test]
fn packed_bytes_are_little_endian_words() {
    let vertex = ShapeVertex::new((1, 2), (3, 4, 0x0102_0304), 6, vec![ParamValue::U32(7)]);
    assert_eq!(vertex.words(), vec![1, 2, 3, 4, 0x0102_0304, 6, 7]);
    let bytes = vertex.pack();
    assert_eq!(bytes.len(), 28);
    assert_eq!(&bytes[0..4], &[1, 0, 0, 0]);
    assert_eq!(&bytes[16..20], &[4, 3, 2, 1]);
    assert_eq!(&bytes[24..28], &[7, 0, 0, 0]);
    let mut buffer = vec![0xffu8];
    vertex.write_to(&mut buffer);
    assert_eq!(buffer.len(), 29);
    assert_eq!(buffer[0], 0xff);
    assert_eq!(&buffer[1..], &bytes[..]);
}

#[test]
fn packed_bytes_match_the_memory_of_floats() {
    let position = [3.0f32, -4.5, 0.125];
    let vertex = ShapeVertex::new(
        (0.6f32.to_bits(), 0.8f32.to_bits()),
        (position[0].to_bits(), position[1].to_bits(), position[2].to_bits()),
        2.0f32.to_bits(),
        Vec::new(),
    );
    let mut expected: Vec<u8> = Vec::new();
    for value in [0.6f32, 0.8, 3.0, -4.5, 0.125, 2.0] {
        expected.extend_from_slice(&value.to_le_bytes());
    }
    assert_eq!(vertex.pack(), expected);
}

#[test]
fn read_attribute_outside_the_bytes() {
    let bytes = vec![0u8; 24];
    let inside = VertexAttribute { format: VertexFormat::Float32, offset: 20, shader_location: 2 };
    let outside = VertexAttribute { format: VertexFormat::Float32, offset: 21, shader_location: 2 };
    let far = VertexAttribute {
        format: VertexFormat::Float32x4,
        offset: u64::MAX - 3,
        shader_location: 2,
    };
    assert_eq!(read_attribute(&bytes, &inside), Some(vec![0]));
    assert_eq!(read_attribute(&bytes, &outside), None);
    assert_eq!(read_attribute(&bytes, &far), None);
}

#[test]
fn parameter_values_of_the_built_in_sets() {
    let params = RectShaderParams {
        color: (1, 2, 3, 4),
        width: 0.5f32.to_bits(),
        height: 0.25f32.to_bits(),
    };
    assert_eq!(
        params.values(),
        vec![
            ParamValue::LinearRgba(1, 2, 3, 4),
            ParamValue::F32(0.5f32.to_bits()),
            ParamValue::F32(0.25f32.to_bits()),
        ]
    );
    assert_eq!(NoParams.values(), Vec::<ParamValue>::new());
    assert_eq!(NoParams::schema().field_len(), 0);
    let color = ColorParams { color: (9, 8, 7, 6) };
    assert_eq!(color.values(), vec![ParamValue::LinearRgba(9, 8, 7, 6)]);
    assert_eq!(ParamValue::I32(-1).field_type(), FieldType::I32);
    let mut words = vec![5u32];
    ParamValue::I32(-1).push_words(&mut words);
    ParamValue::Vec3(1, 2, 3).push_words(&mut words);
    assert_eq!(words, vec![5, u32::MAX, 1, 2, 3]);
}
