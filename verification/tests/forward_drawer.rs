//! The forward model drawer: staging, buffer growth and the
//! equivalence of its two submission paths.

use render_core::device::GraphicsDevice;
use render_core::forward::{
    DrawIndirectArgs, DrawOp, ForwardModelDrawer, ModelBatch, ModelBatchDrawData, PolygonMode,
};
use render_core::instruction::{
    DirectionalLightInstruction, ModelInstruction, RenderInstruction, RenderSettings,
    UniformsInstruction,
};
use render_core::screen::ScreenPosition;
use render_core::settings::Capabilities;

fn instruction_snapshot(models: Vec<ModelInstruction>) -> RenderInstruction {
    RenderInstruction {
        uniforms: UniformsInstruction {
            view_matrix_ref: 1,
            projection_matrix_ref: 2,
            animation_timer_ref: 3,
            day_timer_ref: 4,
            water_level_ref: 5,
            ambient_light_color_ref: 6,
        },
        indicator: None,
        picker_position: ScreenPosition { left: 0, top: 0 },
        directional_light_with_shadow: DirectionalLightInstruction {
            view_projection_matrix_ref: 7,
            color_ref: 8,
            direction_ref: 9,
        },
        point_light_shadow_caster: Vec::new(),
        point_light: Vec::new(),
        models,
        render_settings: RenderSettings::all_lights_visible(),
    }
}

fn model(model_matrix_ref: u64, vertex_offset: usize, vertex_count: usize) -> ModelInstruction {
    ModelInstruction { model_matrix_ref, vertex_offset, vertex_count }
}

/// Expands an encoding into the (vertex start, vertex end, instance)
/// draws it submits, reading indirect submissions from the staged
/// command list.
fn submitted_draws(ops: &[DrawOp], commands: &[DrawIndirectArgs]) -> Vec<(u32, u32, u32)> {
    let mut draws = Vec::new();
    for op in ops {
        match *op {
            DrawOp::MultiDrawIndirect { first_command, command_count } => {
                for i in 0..command_count {
                    let command = commands[first_command + i];
                    draws.push((
                        command.first_vertex,
                        command.first_vertex + command.vertex_count,
                        command.first_instance,
                    ));
                }
            }
            DrawOp::Draw { first_vertex, vertex_end, instance_index } => {
                draws.push((first_vertex, vertex_end, instance_index));
            }
            _ => {}
        }
    }
    draws
}

#[test]
fn prepare_stages_one_command_per_instruction() {
    let mut device = GraphicsDevice::new(256);
    let capabilities = Capabilities { multidraw_indirect: true, polygon_mode_line: true };
    let mut drawer = ForwardModelDrawer::new(&mut device, capabilities);

    let snapshot = instruction_snapshot(vec![model(10, 0, 30), model(11, 30, 12)]);
    drawer.prepare(&snapshot);

    assert_eq!(drawer.draw_commands.len(), 2);
    assert_eq!(
        drawer.draw_commands[0],
        DrawIndirectArgs { vertex_count: 30, instance_count: 1, first_vertex: 0, first_instance: 0 }
    );
    assert_eq!(
        drawer.draw_commands[1],
        DrawIndirectArgs { vertex_count: 12, instance_count: 1, first_vertex: 30, first_instance: 1 }
    );
    assert_eq!(drawer.instance_indices, vec![0, 1]);
    assert_eq!(drawer.instance_data[0].model_matrix_ref, 10);
    assert_eq!(drawer.instance_data[1].model_matrix_ref, 11);
}

#[test]
fn prepare_with_no_models_skips_all_work() {
    let mut device = GraphicsDevice::new(256);
    let capabilities = Capabilities { multidraw_indirect: true, polygon_mode_line: true };
    let mut drawer = ForwardModelDrawer::new(&mut device, capabilities);

    let snapshot = instruction_snapshot(vec![model(10, 0, 30)]);
    drawer.prepare(&snapshot);
    let commands_before = drawer.draw_commands.clone();

    drawer.prepare(&instruction_snapshot(Vec::new()));
    assert_eq!(drawer.draw_commands, commands_before);
}

#[test]
fn upload_grows_instance_buffer_and_rebuilds_bind_group_once() {
    let mut device = GraphicsDevice::new(256);
    let capabilities = Capabilities { multidraw_indirect: true, polygon_mode_line: true };
    let mut drawer = ForwardModelDrawer::new(&mut device, capabilities);

    // 300 instructions exceed the initial capacity of 256 records.
    let models: Vec<ModelInstruction> = (0..300).map(|i| model(i as u64, i * 3, 3)).collect();
    drawer.prepare(&instruction_snapshot(models));

    let bind_group_before = drawer.bind_group.id;
    let rebuilt = drawer.upload(&mut device);
    assert!(rebuilt);
    assert_ne!(drawer.bind_group.id, bind_group_before);
    assert_eq!(drawer.instance_data_buffer.capacity, 300 * 128);

    // The same amount again fits; nothing is rebuilt.
    let bind_group_grown = drawer.bind_group.id;
    let rebuilt_again = drawer.upload(&mut device);
    assert!(!rebuilt_again);
    assert_eq!(drawer.bind_group.id, bind_group_grown);
}

#[test]
fn both_submission_paths_draw_the_same_instances() {
    let models = vec![
        model(20, 0, 30),
        model(21, 30, 12),
        model(22, 42, 9),
        model(23, 51, 18),
        model(24, 69, 6),
    ];
    // Three texture batches over the five instructions, one of them
    // empty.
    let batches = vec![
        ModelBatch { offset: 0, count: 2, texture_ref: 100, vertex_buffer_ref: 200 },
        ModelBatch { offset: 2, count: 0, texture_ref: 101, vertex_buffer_ref: 200 },
        ModelBatch { offset: 2, count: 3, texture_ref: 102, vertex_buffer_ref: 200 },
    ];

    let mut multi_draws = Vec::new();
    let mut direct_draws = Vec::new();
    for multidraw_indirect in [true, false] {
        let mut device = GraphicsDevice::new(256);
        let capabilities = Capabilities { multidraw_indirect, polygon_mode_line: false };
        let mut drawer = ForwardModelDrawer::new(&mut device, capabilities);
        drawer.prepare(&instruction_snapshot(models.clone()));

        let draw_data = ModelBatchDrawData {
            batches: batches.clone(),
            instructions: models.clone(),
            show_wireframe: false,
        };
        let ops = drawer.draw(&draw_data);
        let draws = submitted_draws(&ops, &drawer.draw_commands);
        if multidraw_indirect {
            multi_draws = draws;
        } else {
            direct_draws = draws;
        }
    }

    let expected = vec![(0, 30, 0), (30, 42, 1), (42, 51, 2), (51, 69, 3), (69, 75, 4)];
    assert_eq!(multi_draws, expected);
    assert_eq!(direct_draws, expected);
}

#[test]
fn empty_batch_list_encodes_nothing() {
    let mut device = GraphicsDevice::new(256);
    let capabilities = Capabilities { multidraw_indirect: true, polygon_mode_line: false };
    let mut drawer = ForwardModelDrawer::new(&mut device, capabilities);
    drawer.prepare(&instruction_snapshot(vec![model(1, 0, 3)]));

    let draw_data = ModelBatchDrawData {
        batches: Vec::new(),
        instructions: vec![model(1, 0, 3)],
        show_wireframe: false,
    };
    assert!(drawer.draw(&draw_data).is_empty());
}

#[test]
fn wireframe_falls_back_to_solid_fill_without_line_support() {
    let mut device = GraphicsDevice::new(256);
    let with_lines = ForwardModelDrawer::new(
        &mut device,
        Capabilities { multidraw_indirect: true, polygon_mode_line: true },
    );
    assert_eq!(with_lines.wireframe_pipeline.polygon_mode, PolygonMode::Line);

    let without_lines = ForwardModelDrawer::new(
        &mut device,
        Capabilities { multidraw_indirect: true, polygon_mode_line: false },
    );
    assert_eq!(without_lines.wireframe_pipeline.polygon_mode, PolygonMode::Fill);
    assert_eq!(without_lines.pipeline.polygon_mode, PolygonMode::Fill);
}

#[test]
fn wireframe_request_selects_the_wireframe_pipeline() {
    let mut device = GraphicsDevice::new(256);
    let capabilities = Capabilities { multidraw_indirect: true, polygon_mode_line: true };
    let mut drawer = ForwardModelDrawer::new(&mut device, capabilities);
    let models = vec![model(1, 0, 3)];
    drawer.prepare(&instruction_snapshot(models.clone()));

    let batches = vec![ModelBatch { offset: 0, count: 1, texture_ref: 1, vertex_buffer_ref: 2 }];
    let ops = drawer.draw(&ModelBatchDrawData {
        batches,
        instructions: models,
        show_wireframe: true,
    });
    assert_eq!(ops[0], DrawOp::SetPipeline { pipeline_id: drawer.wireframe_pipeline.id });
}
