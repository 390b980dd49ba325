use param_shaders::draw::{draw_shape_batch, RenderCommandResult};
use param_shaders::extract::{cleanup_shapes, extract_shapes, ShapeEntity};
use param_shaders::instance::ShapeVertex;
use param_shaders::merge::{follows, join_adjacent_batches};
use param_shaders::prepare::{prepare_shapes, write_buffer, PrepareAction};
use param_shaders::queue::{
    depth_order_key, plan, plan_batches, queue_shapes, sort_shapes, RenderPhaseItem, ShapeBatch,
};
use param_shaders::parameterized_shader::ExtractToShader;
use param_shaders::primitives::{
    CircleShader, RectShaderExtraction, RoundedRectShaderExtraction, RoundedRectWithBorderShader,
    ShaderBorder, ShaderColor, ShaderProportions, ShaderRounding, DEFAULT_BORDER, ONE,
};
use param_shaders::shader_params::{ColorParams, ParamValue};

fn at_depth(z: f32, tag: u32) -> ShapeVertex {
    ShapeVertex::new(
        (1.0f32.to_bits(), 0),
        (0, 0, z.to_bits()),
        1.0f32.to_bits(),
        vec![ParamValue::U32(tag)],
    )
}

fn tags(vertices: &[ShapeVertex]) -> Vec<u32> {
    vertices
        .iter()
        .map(|v| match v.params[0] {
            ParamValue::U32(tag) => tag,
            _ => unreachable!(),
        })
        .collect()
}

fn item(draw_function: u32, start: u32, end: u32) -> RenderPhaseItem {
    RenderPhaseItem { sort_key: 0, draw_function, pipeline: 0, batch: ShapeBatch { start, end } }
}

fn ranges(items: &[RenderPhaseItem]) -> Vec<(u32, u32)> {
    items.iter().map(|i| (i.batch.start, i.batch.end)).collect()
}

fn total(items: &[RenderPhaseItem]) -> u32 {
    items.iter().map(|i| i.batch.len()).sum()
}

#[test]
fn two_shapes_same_depth() {
    let red = ParamValue::LinearRgba(1.0f32.to_bits(), 0, 0, 1.0f32.to_bits());
    let blue = ParamValue::LinearRgba(0, 0, 1.0f32.to_bits(), 1.0f32.to_bits());
    let mut instances = vec![
        ShapeVertex::new((0, 0), (0, 0, 0.0f32.to_bits()), 0, vec![red]),
        ShapeVertex::new((0, 0), (0, 0, 1.0f32.to_bits()), 0, vec![red]),
        ShapeVertex::new((0, 0), (0, 0, 0.0f32.to_bits()), 0, vec![blue]),
    ];
    let batches = plan(&mut instances);
    assert_eq!(batches, vec![ShapeBatch { start: 0, end: 2 }, ShapeBatch { start: 2, end: 3 }]);
    assert_eq!(batches[0].len(), 2);
    assert_eq!(batches[1].len(), 1);
    assert_eq!(instances[0].z_index(), 0.0f32.to_bits());
    assert_eq!(instances[1].z_index(), 0.0f32.to_bits());
    assert_eq!(instances[2].z_index(), 1.0f32.to_bits());
    // equal depths keep their order
    assert_eq!(instances[0].params, vec![red]);
    assert_eq!(instances[1].params, vec![blue]);
}

#[test]
fn sort_orders_by_depth_and_is_stable() {
    let mut vertices = vec![
        at_depth(2.0, 0),
        at_depth(-1.0, 1),
        at_depth(0.5, 2),
        at_depth(-1.0, 3),
        at_depth(f32::INFINITY, 4),
        at_depth(-300.0, 5),
        at_depth(2.0, 6),
        at_depth(f32::NEG_INFINITY, 7),
        at_depth(0.0, 8),
        at_depth(-0.0, 9),
    ];
    sort_shapes(&mut vertices);
    assert_eq!(tags(&vertices), vec![7, 5, 1, 3, 9, 8, 2, 0, 6, 4]);
}

#[test]
fn sort_matches_the_order_of_floats() {
    let depths: Vec<f32> = (0..200).map(|i| ((i * 37 % 101) as f32 - 50.0) * 0.25).collect();
    let mut vertices: Vec<ShapeVertex> =
        depths.iter().enumerate().map(|(i, z)| at_depth(*z, i as u32)).collect();
    sort_shapes(&mut vertices);
    let mut expected: Vec<(f32, u32)> =
        depths.iter().enumerate().map(|(i, z)| (*z, i as u32)).collect();
    expected.sort_by(|a, b| a.0.partial_cmp(&b.0).unwrap());
    let expected_tags: Vec<u32> = expected.iter().map(|e| e.1).collect();
    assert_eq!(tags(&vertices), expected_tags);
}

#[test]
fn depth_order_keys() {
    assert_eq!(depth_order_key(0.0f32.to_bits()), 0x8000_0000);
    assert_eq!(depth_order_key((-0.0f32).to_bits()), 0x7fff_ffff);
    assert_eq!(depth_order_key(1.0f32.to_bits()), 0xbf80_0000);
    assert_eq!(depth_order_key((-1.0f32).to_bits()), 0x407f_ffff);
    assert_eq!(depth_order_key(0xffff_ffff), 0);
    assert_eq!(depth_order_key(0x7fff_ffff), 0xffff_ffff);
    let ascending = [f32::NEG_INFINITY, -2.0, -1.0, -0.0, 0.0, 1e-30, 1.0, 2.0, f32::INFINITY];
    for pair in ascending.windows(2) {
        assert!(depth_order_key(pair[0].to_bits()) < depth_order_key(pair[1].to_bits()));
    }
    let vertex = at_depth(1.0, 0);
    assert_eq!(vertex.order_key(), 0xbf80_0000);
}

#[test]
fn empty_buffer_gives_no_batches() {
    let mut vertices: Vec<ShapeVertex> = Vec::new();
    assert_eq!(plan(&mut vertices), Vec::<ShapeBatch>::new());
    assert_eq!(plan_batches(&vertices), Vec::<ShapeBatch>::new());
    let mut phase: Vec<RenderPhaseItem> = Vec::new();
    assert_eq!(queue_shapes(&vertices, 1, 2, &mut phase), Vec::<ShapeBatch>::new());
    assert!(phase.is_empty());
}

#[test]
fn partition_cuts_maximal_runs() {
    let depths = [1.0f32, 1.0, 2.0, 3.0, 3.0, 3.0, 1.0];
    let vertices: Vec<ShapeVertex> =
        depths.iter().enumerate().map(|(i, z)| at_depth(*z, i as u32)).collect();
    let batches = plan_batches(&vertices);
    assert_eq!(
        batches,
        vec![
            ShapeBatch { start: 0, end: 2 },
            ShapeBatch { start: 2, end: 3 },
            ShapeBatch { start: 3, end: 6 },
            ShapeBatch { start: 6, end: 7 },
        ]
    );
    // every index is in exactly one range
    for i in 0..depths.len() as u32 {
        assert_eq!(batches.iter().filter(|b| b.start <= i && i < b.end).count(), 1);
    }
    // one depth in each range, another in the next
    for (k, batch) in batches.iter().enumerate() {
        let z = vertices[batch.start as usize].z_index();
        for i in batch.start..batch.end {
            assert_eq!(vertices[i as usize].z_index(), z);
        }
        if k + 1 < batches.len() {
            assert_ne!(vertices[batches[k + 1].start as usize].z_index(), z);
        }
    }
}

#[test]
fn partition_tells_zero_from_negative_zero() {
    let vertices = vec![at_depth(0.0, 0), at_depth(-0.0, 1)];
    assert_eq!(
        plan_batches(&vertices),
        vec![ShapeBatch { start: 0, end: 1 }, ShapeBatch { start: 1, end: 2 }]
    );
}

#[test]
fn plan_gives_one_batch_for_each_depth() {
    let depths = [3.0f32, 1.0, 2.0, 1.0, 3.0, 1.0];
    let mut vertices: Vec<ShapeVertex> =
        depths.iter().enumerate().map(|(i, z)| at_depth(*z, i as u32)).collect();
    let batches = plan(&mut vertices);
    assert_eq!(
        batches,
        vec![
            ShapeBatch { start: 0, end: 3 },
            ShapeBatch { start: 3, end: 4 },
            ShapeBatch { start: 4, end: 6 },
        ]
    );
    assert_eq!(tags(&vertices), vec![1, 3, 5, 2, 0, 4]);
}

#[test]
fn queue_adds_one_item_for_each_batch() {
    let depths = [1.0f32, 1.0, 2.5];
    let vertices: Vec<ShapeVertex> =
        depths.iter().enumerate().map(|(i, z)| at_depth(*z, i as u32)).collect();
    let mut phase = vec![item(9, 0, 4)];
    let batches = queue_shapes(&vertices, 5, 11, &mut phase);
    assert_eq!(batches.len(), 2);
    assert_eq!(
        phase,
        vec![
            item(9, 0, 4),
            RenderPhaseItem {
                sort_key: 1.0f32.to_bits(),
                draw_function: 5,
                pipeline: 11,
                batch: ShapeBatch { start: 0, end: 2 },
            },
            RenderPhaseItem {
                sort_key: 2.5f32.to_bits(),
                draw_function: 5,
                pipeline: 11,
                batch: ShapeBatch { start: 2, end: 3 },
            },
        ]
    );
}

#[test]
fn merge_joins_adjacent_batches() {
    let mut items = vec![item(1, 0, 2), item(1, 2, 3), item(1, 3, 7), item(2, 7, 9)];
    join_adjacent_batches(&mut items);
    assert_eq!(ranges(&items), vec![(0, 7), (3, 3), (7, 7), (7, 9)]);
    assert_eq!(items.iter().map(|i| i.draw_function).collect::<Vec<u32>>(), vec![1, 1, 1, 2]);
}

#[test]
fn merge_does_not_cross_draw_functions() {
    let mut items = vec![item(1, 0, 2), item(2, 2, 4), item(1, 4, 6)];
    let before = items.clone();
    join_adjacent_batches(&mut items);
    assert_eq!(items, before);
}

#[test]
fn merge_needs_touching_ranges() {
    let mut items = vec![item(1, 0, 2), item(1, 3, 4), item(1, 4, 6), item(1, 0, 2)];
    join_adjacent_batches(&mut items);
    assert_eq!(ranges(&items), vec![(0, 2), (3, 6), (6, 6), (0, 2)]);
}

#[test]
fn merge_leaves_empty_ranges_alone() {
    let mut items = vec![item(1, 0, 2), item(1, 2, 2), item(1, 2, 5), item(1, 5, 6)];
    join_adjacent_batches(&mut items);
    assert_eq!(ranges(&items), vec![(0, 2), (2, 2), (2, 6), (6, 6)]);
    let mut none: Vec<RenderPhaseItem> = Vec::new();
    join_adjacent_batches(&mut none);
    assert!(none.is_empty());
}

#[test]
fn merge_is_idempotent() {
    let lists = vec![
        vec![item(1, 0, 2), item(1, 2, 3), item(1, 3, 7), item(2, 7, 9), item(2, 9, 12)],
        vec![item(1, 0, 2), item(1, 2, 2), item(1, 2, 5), item(1, 5, 6)],
        vec![item(3, 4, 6), item(3, 0, 4), item(3, 4, 5), item(3, 5, 5), item(3, 5, 8)],
        vec![item(1, 0, 1)],
        vec![],
    ];
    for list in lists {
        let mut once = list.clone();
        join_adjacent_batches(&mut once);
        let mut twice = once.clone();
        join_adjacent_batches(&mut twice);
        assert_eq!(twice, once);
    }
}

#[test]
fn merge_keeps_the_instance_count() {
    let lists = vec![
        vec![item(1, 0, 2), item(1, 2, 3), item(1, 3, 7), item(2, 7, 9), item(2, 9, 12)],
        vec![item(1, 0, 2), item(1, 2, 2), item(1, 2, 5), item(1, 5, 6)],
        vec![item(3, 4, 6), item(3, 0, 4), item(3, 4, 5), item(3, 5, 5), item(3, 5, 8)],
        vec![item(7, 5, 2), item(7, 2, 9)],
    ];
    for list in lists {
        let mut merged = list.clone();
        join_adjacent_batches(&mut merged);
        assert_eq!(total(&merged), total(&list));
        assert_eq!(merged.len(), list.len());
    }
}

#[test]
fn merge_after_queueing_two_call_sites() {
    // two sets of instances of one shape kind, queued one after the other
    // into one buffer: their batches touch and become one draw
    let mut items = vec![item(4, 0, 3), item(4, 3, 5)];
    join_adjacent_batches(&mut items);
    assert_eq!(ranges(&items), vec![(0, 5), (5, 5)]);
    assert_eq!(items.iter().filter(|i| !i.batch.is_empty()).count(), 1);
}

#[test]
fn queued_batches_of_one_buffer_join_into_one_draw() {
    let depths = [1.0f32, 1.0, 2.5, 3.0, 3.0];
    let vertices: Vec<ShapeVertex> =
        depths.iter().enumerate().map(|(i, z)| at_depth(*z, i as u32)).collect();
    let mut phase = Vec::new();
    let batches = queue_shapes(&vertices, 5, 11, &mut phase);
    assert_eq!(batches.len(), 3);
    join_adjacent_batches(&mut phase);
    assert_eq!(ranges(&phase), vec![(0, 5), (3, 3), (5, 5)]);
    assert_eq!(total(&phase), 5);
}

#[test]
fn follows_needs_function_start_and_instances() {
    assert!(follows(1, 4, &item(1, 4, 6)));
    assert!(!follows(2, 4, &item(1, 4, 6)));
    assert!(!follows(1, 3, &item(1, 4, 6)));
    assert!(!follows(1, 4, &item(1, 4, 4)));
    assert!(ShapeBatch { start: 4, end: 4 }.is_empty());
    assert!(ShapeBatch { start: 5, end: 4 }.is_empty());
    assert_eq!(ShapeBatch { start: 5, end: 4 }.len(), 0);
    assert_eq!(ShapeBatch { start: 4, end: 9 }.len(), 5);
}

fn circle_at(visible: bool, z: f32, red: f32) -> ShapeEntity<ShaderColor<0>> {
    ShapeEntity {
        view_visibility: visible,
        params_item: ShaderColor { color: (red.to_bits(), 0, 0, ONE) },
        rotation: (ONE, 0),
        position: (0, 0, z.to_bits()),
        scale: 2.0f32.to_bits(),
    }
}

#[test]
fn extraction_skips_invisible_entities() {
    let mut buffer = vec![at_depth(9.0, 100)];
    let shapes = vec![circle_at(true, 1.0, 0.25), circle_at(false, 2.0, 0.5), circle_at(true, 3.0, 0.75)];
    extract_shapes::<CircleShader>(&mut buffer, &shapes, &());
    assert_eq!(buffer.len(), 3);
    assert_eq!(buffer[0].params, vec![ParamValue::U32(100)]);
    assert_eq!(buffer[1].z_index(), 1.0f32.to_bits());
    assert_eq!(buffer[1].params, vec![ParamValue::LinearRgba(0.25f32.to_bits(), 0, 0, ONE)]);
    assert_eq!(buffer[1].rotation, (ONE, 0));
    assert_eq!(buffer[1].scale, 2.0f32.to_bits());
    assert_eq!(buffer[2].z_index(), 3.0f32.to_bits());
    assert_eq!(buffer[2].params, vec![ParamValue::LinearRgba(0.75f32.to_bits(), 0, 0, ONE)]);
    cleanup_shapes(&mut buffer);
    assert!(buffer.is_empty());
    extract_shapes::<CircleShader>(&mut buffer, &Vec::new(), &());
    assert!(buffer.is_empty());
    extract_shapes::<CircleShader>(&mut buffer, &vec![circle_at(false, 1.0, 1.0)], &());
    assert!(buffer.is_empty());
}

#[test]
fn extraction_of_the_built_in_shape_kinds() {
    let color = ShaderColor::<0> { color: (1, 2, 3, 4) };
    let proportions = ShaderProportions { width: 5, height: 6 };
    let rounding = ShaderRounding { rounding: 7 };
    let border = ShaderBorder { border_color: (8, 9, 10, 11), border: 12 };
    let rect = RectShaderExtraction::get_params(&(color, proportions), &());
    assert_eq!((rect.color, rect.width, rect.height), ((1, 2, 3, 4), 5, 6));
    let rounded = RoundedRectShaderExtraction::get_params(&(color, rounding, proportions), &());
    assert_eq!(
        (rounded.color, rounded.width, rounded.height, rounded.rounding),
        ((1, 2, 3, 4), 5, 6, 7)
    );
    let bordered =
        RoundedRectWithBorderShader::get_params(&(color, rounding, proportions, border), &());
    assert_eq!((bordered.width, bordered.height, bordered.rounding), (5, 6, 7));
    assert_eq!((bordered.color, bordered.border_color, bordered.border), ((1, 2, 3, 4), (8, 9, 10, 11), 12));
    assert_eq!(CircleShader::get_params(&color, &()), ColorParams { color: (1, 2, 3, 4) });
    let mut buffer = Vec::new();
    let entity = ShapeEntity {
        view_visibility: true,
        params_item: (color, rounding, proportions, border),
        rotation: (0, ONE),
        position: (1, 2, 3),
        scale: ONE,
    };
    extract_shapes::<RoundedRectWithBorderShader>(&mut buffer, &vec![entity], &());
    assert_eq!(
        buffer[0].words(),
        vec![0, ONE, 1, 2, 3, ONE, 5, 6, 7, 1, 2, 3, 4, 8, 9, 10, 11, 12]
    );
}

#[test]
fn component_defaults() {
    assert_eq!(ShaderProportions::default(), ShaderProportions { width: ONE, height: ONE });
    assert_eq!(f32::from_bits(ShaderProportions::default().width), 1.0);
    assert_eq!(ShaderRounding::default(), ShaderRounding { rounding: 0 });
    assert_eq!(ShaderBorder::none(), ShaderBorder { border_color: (0, 0, 0, 0), border: 0 });
    let border = ShaderBorder::from_color((1, 2, 3, 4));
    assert_eq!(border, ShaderBorder { border_color: (1, 2, 3, 4), border: DEFAULT_BORDER });
    assert_eq!(f32::from_bits(border.border), 0.005);
}

#[test]
fn draw_call_of_a_batch() {
    let batch = ShapeBatch { start: 3, end: 8 };
    assert_eq!(
        draw_shape_batch(Some(batch), true),
        RenderCommandResult::Success { first_vertex: 0, end_vertex: 4, instances: batch }
    );
    assert_eq!(draw_shape_batch(Some(batch), false), RenderCommandResult::Failure { warn: true });
    assert_eq!(draw_shape_batch(None, true), RenderCommandResult::Failure { warn: false });
    assert_eq!(draw_shape_batch(None, false), RenderCommandResult::Failure { warn: false });
}

#[test]
fn prepare_is_skipped_until_the_uniforms_are_there() {
    assert_eq!(prepare_shapes(false, false, false), PrepareAction::Skip);
    assert_eq!(prepare_shapes(false, true, true), PrepareAction::Skip);
    assert_eq!(prepare_shapes(true, true, false), PrepareAction::Skip);
    assert_eq!(prepare_shapes(true, true, true), PrepareAction::BindViewAndGlobals);
    assert_eq!(prepare_shapes(true, false, false), PrepareAction::BindView);
    assert_eq!(prepare_shapes(true, false, true), PrepareAction::BindView);
}

#[test]
fn instance_buffer_holds_the_records_in_order() {
    let vertices = vec![at_depth(1.0, 7), at_depth(2.0, 8)];
    let bytes = write_buffer(&vertices);
    let mut expected = vertices[0].pack();
    expected.extend(vertices[1].pack());
    assert_eq!(bytes, expected);
    assert_eq!(bytes.len(), 56);
    assert_eq!(write_buffer(&Vec::new()), Vec::<u8>::new());
    let copy = vertices[0].clone();
    assert_eq!(copy.pack(), vertices[0].pack());
}
