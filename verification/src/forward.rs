//! The forward model drawer: instanced indirect drawing of the scene's
//! models, with a per-instruction fallback for devices without
//! multi-draw-indirect support.
//!
//! The drawer stages one instance record and one indirect-draw command
//! per model instruction, then emits the pass encoding as a list of
//! [`DrawOp`] actions for the device layer to execute.  Whether a batch
//! is submitted as one multi-draw or as one direct draw per
//! instruction, the same (vertex range, instance index) draws come out,
//! in the same order; [`lemma_draw_path_equivalence`] states that
//! equivalence for every instruction list.

use vstd::prelude::*;

use crate::buffer::{Buffer, BufferUsage};
use crate::device::{BindGroup, BindGroupLayout, GraphicsDevice};
use crate::instruction::{ModelInstruction, RenderInstruction};
use crate::settings::Capabilities;

verus! {

/// Initial element capacity of the drawer's buffers.
pub const INITIAL_INSTRUCTION_SIZE: u64 = 256;

/// Bytes of one staged instance record (world matrix and its
/// inverse-transpose, derived from the instruction's matrix by the
/// float layer).
pub const INSTANCE_DATA_SIZE: u64 = 128;

/// Bytes of one indirect draw command.
pub const DRAW_INDIRECT_ARGS_SIZE: u64 = 16;

/// Bytes of one instance-index vertex stream element.
pub const INSTANCE_INDEX_SIZE: u64 = 4;

/// Arguments of one indirect draw, in the device's command layout.
#[derive(Clone, Copy, PartialEq, Eq, Structural, Debug)]
pub struct DrawIndirectArgs {
    pub vertex_count: u32,
    pub instance_count: u32,
    pub first_vertex: u32,
    pub first_instance: u32,
}

/// One staged instance record, by matrix handle; the float layer
/// serialises the world matrix and its inverse-transpose from it.
#[derive(Clone, Copy, PartialEq, Eq, Structural, Debug)]
pub struct InstanceData {
    pub model_matrix_ref: u64,
}

/// A contiguous run of same-texture instructions, prepared by the
/// scene layer: `count` instructions starting at `offset`.
#[derive(Clone, Copy, PartialEq, Eq, Structural, Debug)]
pub struct ModelBatch {
    pub offset: usize,
    pub count: usize,
    /// Texture of the batch, by asset handle.
    pub texture_ref: u64,
    /// Vertex buffer of the batch, by asset handle.
    pub vertex_buffer_ref: u64,
}

/// Everything one draw call of the drawer consumes.
pub struct ModelBatchDrawData {
    pub batches: Vec<ModelBatch>,
    pub instructions: Vec<ModelInstruction>,
    pub show_wireframe: bool,
}

/// Polygon fill mode a pipeline was compiled with.
#[derive(Clone, Copy, PartialEq, Eq, Structural, Debug)]
pub enum PolygonMode {
    Fill,
    Line,
}

/// A compiled render pipeline, recorded with its fill mode.
#[derive(Clone, Copy, PartialEq, Eq, Structural, Debug)]
pub struct Pipeline {
    pub id: u64,
    pub polygon_mode: PolygonMode,
}

/// One encoding action of the model pass, to be executed in order by
/// the device layer.
#[derive(Clone, Copy, PartialEq, Eq, Structural, Debug)]
pub enum DrawOp {
    SetPipeline { pipeline_id: u64 },
    SetBindGroup { slot: u32, bind_group_id: u64 },
    SetVertexBuffer { slot: u32, buffer_ref: u64 },
    /// Submit `command_count` commands of the indirect command buffer,
    /// starting at command index `first_command`.
    MultiDrawIndirect { first_command: usize, command_count: usize },
    /// Submit the vertex range `[first_vertex, vertex_end)` for the
    /// single instance `instance_index`.
    Draw { first_vertex: u32, vertex_end: u32, instance_index: u32 },
}

/// One submitted draw, abstractly: vertex start, vertex end and
/// instance index.
pub type SubmittedDraw = (int, int, int);

/// The indirect command staged for instruction `index`: its vertex
/// range, one instance, and the instance index used to look up the
/// per-instance data.
pub open spec fn spec_command_of(instruction: ModelInstruction, index: int) -> DrawIndirectArgs {
    DrawIndirectArgs {
        vertex_count: instruction.vertex_count as u32,
        instance_count: 1,
        first_vertex: instruction.vertex_offset as u32,
        first_instance: index as u32,
    }
}

/// The staged command list matches the instruction list: one command
/// per instruction, carrying its vertex range and its index.
pub open spec fn commands_match(
    commands: Seq<DrawIndirectArgs>,
    instructions: Seq<ModelInstruction>,
) -> bool {
    &&& commands.len() == instructions.len()
    &&& instructions.len() <= u32::MAX as int
    &&& forall|j: int|
        0 <= j < instructions.len() ==> {
            &&& (#[trigger] instructions[j]).vertex_offset + instructions[j].vertex_count
                <= u32::MAX as int
            &&& commands[j] == spec_command_of(instructions[j], j)
        }
}

/// Every batch stays within the instruction list.
pub open spec fn batches_within(batches: Seq<ModelBatch>, len: int) -> bool {
    forall|b: int|
        0 <= b < batches.len() ==> (#[trigger] batches[b]).offset + batches[b].count <= len
}

/// The draws one batch submits through the indirect path: the staged
/// commands of its range, in order.
pub open spec fn spec_indirect_batch_draws(
    commands: Seq<DrawIndirectArgs>,
    batch: ModelBatch,
) -> Seq<SubmittedDraw> {
    Seq::new(
        batch.count as nat,
        |i: int|
            (
                commands[batch.offset + i].first_vertex as int,
                commands[batch.offset + i].first_vertex + commands[batch.offset + i].vertex_count,
                commands[batch.offset + i].first_instance as int,
            ),
    )
}

/// The draws one batch submits through the per-instruction fallback:
/// each instruction's vertex range with its global index as instance.
pub open spec fn spec_direct_batch_draws(
    instructions: Seq<ModelInstruction>,
    batch: ModelBatch,
) -> Seq<SubmittedDraw> {
    Seq::new(
        batch.count as nat,
        |i: int|
            (
                instructions[batch.offset + i].vertex_offset as int,
                instructions[batch.offset + i].vertex_offset + instructions[batch.offset
                    + i].vertex_count,
                batch.offset + i,
            ),
    )
}

/// All draws of a frame through the indirect path, batch by batch.
pub open spec fn spec_indirect_draws(
    commands: Seq<DrawIndirectArgs>,
    batches: Seq<ModelBatch>,
) -> Seq<SubmittedDraw>
    decreases batches.len(),
{
    if batches.len() == 0 {
        Seq::empty()
    } else {
        spec_indirect_draws(commands, batches.drop_last()) + spec_indirect_batch_draws(
            commands,
            batches.last(),
        )
    }
}

/// All draws of a frame through the fallback path, batch by batch.
pub open spec fn spec_direct_draws(
    instructions: Seq<ModelInstruction>,
    batches: Seq<ModelBatch>,
) -> Seq<SubmittedDraw>
    decreases batches.len(),
{
    if batches.len() == 0 {
        Seq::empty()
    } else {
        spec_direct_draws(instructions, batches.drop_last()) + spec_direct_batch_draws(
            instructions,
            batches.last(),
        )
    }
}

/// The draws one encoding action submits: an indirect action submits
/// the staged commands of its range, a direct action submits itself,
/// state changes submit nothing.
pub open spec fn spec_op_draws(
    op: DrawOp,
    commands: Seq<DrawIndirectArgs>,
) -> Seq<SubmittedDraw> {
    match op {
        DrawOp::MultiDrawIndirect { first_command, command_count } => Seq::new(
            command_count as nat,
            |i: int|
                (
                    commands[first_command + i].first_vertex as int,
                    commands[first_command + i].first_vertex + commands[first_command
                        + i].vertex_count,
                    commands[first_command + i].first_instance as int,
                ),
        ),
        DrawOp::Draw { first_vertex, vertex_end, instance_index } => seq![
            (first_vertex as int, vertex_end as int, instance_index as int),
        ],
        _ => Seq::empty(),
    }
}

/// The draws an encoding submits, in order.
pub open spec fn spec_submitted_draws(
    ops: Seq<DrawOp>,
    commands: Seq<DrawIndirectArgs>,
) -> Seq<SubmittedDraw>
    decreases ops.len(),
{
    if ops.len() == 0 {
        Seq::empty()
    } else {
        spec_submitted_draws(ops.drop_last(), commands) + spec_op_draws(ops.last(), commands)
    }
}

/// Appending one action appends exactly its draws.
pub proof fn lemma_submitted_draws_push(
    ops: Seq<DrawOp>,
    op: DrawOp,
    commands: Seq<DrawIndirectArgs>,
)
    ensures
        spec_submitted_draws(ops.push(op), commands) == spec_submitted_draws(ops, commands)
            + spec_op_draws(op, commands),
{
    assert(ops.push(op).drop_last() =~= ops);
    assert(ops.push(op).last() == op);
}

/// The forward model drawer's state: GPU buffers for the staged
/// instance data, instance-index vertex stream and indirect commands,
/// the bind group over the instance data, the two pipelines, and the
/// CPU staging lists of the current frame.
pub struct ForwardModelDrawer {
    /// Resolved once from the capability probe; selects the
    /// submission path for every later frame.
    pub multi_draw_indirect_support: bool,
    pub instance_data_buffer: Buffer,
    /// Per-instance index vertex stream, a workaround for devices
    /// whose shaders cannot read the instance offset of an indirect
    /// draw.
    pub instance_index_vertex_buffer: Buffer,
    pub command_buffer: Buffer,
    pub bind_group_layout: BindGroupLayout,
    pub bind_group: BindGroup,
    pub pipeline: Pipeline,
    /// Line-mode pipeline for the wireframe overlay; compiled with
    /// solid fill when the device cannot draw lines.
    pub wireframe_pipeline: Pipeline,
    pub instance_data: Vec<InstanceData>,
    pub instance_indices: Vec<u32>,
    pub draw_commands: Vec<DrawIndirectArgs>,
}

impl ForwardModelDrawer {
    /// Shapes of the drawer's buffers, the bind group over the
    /// instance data, and coherence of the staged lists: one instance
    /// record, one index and one command per staged instruction, the
    /// command of slot `j` drawing one instance at index `j`.
    pub open spec fn well_formed(self) -> bool {
        &&& self.instance_data_buffer.element_size == INSTANCE_DATA_SIZE
        &&& self.instance_data_buffer.usage == (BufferUsage {
            copy_dst: true,
            map_read: false,
            uniform: false,
            storage: true,
            indirect: false,
            vertex: false,
        })
        &&& self.instance_index_vertex_buffer.element_size == INSTANCE_INDEX_SIZE
        &&& self.instance_index_vertex_buffer.usage == (BufferUsage {
            copy_dst: true,
            map_read: false,
            uniform: false,
            storage: false,
            indirect: false,
            vertex: true,
        })
        &&& self.command_buffer.element_size == DRAW_INDIRECT_ARGS_SIZE
        &&& self.command_buffer.usage == (BufferUsage {
            copy_dst: true,
            map_read: false,
            uniform: false,
            storage: false,
            indirect: true,
            vertex: false,
        })
        &&& self.bind_group_layout.entry_count == 1
        &&& self.bind_group.layout_id == self.bind_group_layout.id
        &&& self.bind_group.entries@ == seq![self.instance_data_buffer.id]
        &&& self.pipeline.polygon_mode == PolygonMode::Fill
        &&& self.instance_data.len() == self.draw_commands.len()
        &&& self.instance_indices.len() == self.draw_commands.len()
        &&& self.draw_commands.len() <= u32::MAX as int
        &&& forall|j: int|
            0 <= j < self.draw_commands.len() ==> {
                &&& (#[trigger] self.draw_commands@[j]).instance_count == 1
                &&& self.draw_commands@[j].first_instance == j
                &&& self.instance_indices@[j] == j
            }
    }

    /// Creates the drawer: buffers at their initial capacities, the
    /// bind group over the instance data, and the two pipelines.  The
    /// wireframe pipeline falls back to solid fill when the device
    /// cannot draw lines; missing multi-draw-indirect support is
    /// recorded and switches every later draw to the fallback path.
    pub fn new(device: &mut GraphicsDevice, capabilities: Capabilities) -> (result:
        ForwardModelDrawer)
        requires
            old(device).next_id <= u64::MAX - 16,
        ensures
            result.well_formed(),
            result.multi_draw_indirect_support == capabilities.multidraw_indirect,
            result.wireframe_pipeline.polygon_mode == (if capabilities.polygon_mode_line {
                PolygonMode::Line
            } else {
                PolygonMode::Fill
            }),
            result.instance_data_buffer.capacity == INSTANCE_DATA_SIZE
                * INITIAL_INSTRUCTION_SIZE,
            result.instance_index_vertex_buffer.capacity == INSTANCE_INDEX_SIZE
                * INITIAL_INSTRUCTION_SIZE,
            result.command_buffer.capacity == DRAW_INDIRECT_ARGS_SIZE * INITIAL_INSTRUCTION_SIZE,
            result.instance_data@ =~= Seq::<InstanceData>::empty(),
            result.instance_indices@ =~= Seq::<u32>::empty(),
            result.draw_commands@ =~= Seq::<DrawIndirectArgs>::empty(),
            old(device).next_id <= final(device).next_id,
            final(device).next_id <= old(device).next_id + 16,
            final(device).same_limits(*old(device)),
    {
        let instance_data_buffer = Buffer::with_capacity(
            device,
            BufferUsage {
                copy_dst: true,
                map_read: false,
                uniform: false,
                storage: true,
                indirect: false,
                vertex: false,
            },
            INSTANCE_DATA_SIZE,
            INSTANCE_DATA_SIZE * INITIAL_INSTRUCTION_SIZE,
        );
        let instance_index_vertex_buffer = Buffer::with_capacity(
            device,
            BufferUsage {
                copy_dst: true,
                map_read: false,
                uniform: false,
                storage: false,
                indirect: false,
                vertex: true,
            },
            INSTANCE_INDEX_SIZE,
            INSTANCE_INDEX_SIZE * INITIAL_INSTRUCTION_SIZE,
        );
        let command_buffer = Buffer::with_capacity(
            device,
            BufferUsage {
                copy_dst: true,
                map_read: false,
                uniform: false,
                storage: false,
                indirect: true,
                vertex: false,
            },
            DRAW_INDIRECT_ARGS_SIZE,
            DRAW_INDIRECT_ARGS_SIZE * INITIAL_INSTRUCTION_SIZE,
        );

        let bind_group_layout = BindGroupLayout { id: device.fresh_id(), entry_count: 1 };
        let bind_group = Self::create_bind_group(device, &bind_group_layout, &instance_data_buffer);

        let wireframe_pipeline = if capabilities.supports_polygon_mode_line() {
            Pipeline { id: device.fresh_id(), polygon_mode: PolygonMode::Line }
        } else {
            Pipeline { id: device.fresh_id(), polygon_mode: PolygonMode::Fill }
        };
        let pipeline = Pipeline { id: device.fresh_id(), polygon_mode: PolygonMode::Fill };

        ForwardModelDrawer {
            multi_draw_indirect_support: capabilities.supports_multidraw_indirect(),
            instance_data_buffer,
            instance_index_vertex_buffer,
            command_buffer,
            bind_group_layout,
            bind_group,
            pipeline,
            wireframe_pipeline,
            instance_data: Vec::new(),
            instance_indices: Vec::new(),
            draw_commands: Vec::new(),
        }
    }

    /// Binds the instance-data buffer for the vertex shader.
    pub fn create_bind_group(
        device: &mut GraphicsDevice,
        bind_group_layout: &BindGroupLayout,
        instance_data_buffer: &Buffer,
    ) -> (result: BindGroup)
        requires
            old(device).next_id < u64::MAX,
        ensures
            result.layout_id == bind_group_layout.id,
            result.entries@ == seq![instance_data_buffer.id],
            result.id == old(device).next_id,
            final(device).next_id == old(device).next_id + 1,
            final(device).same_limits(*old(device)),
    {
        let mut entries: Vec<u64> = Vec::new();
        entries.push(instance_data_buffer.id);
        proof {
            assert(entries@ =~= seq![instance_data_buffer.id]);
        }
        BindGroup { id: device.fresh_id(), layout_id: bind_group_layout.id, entries }
    }

    /// Stages one instance record, one instance index and one indirect
    /// command per model instruction.  An empty instruction list skips
    /// all staging work and leaves last frame's lists in place.
    pub fn prepare(&mut self, instructions: &RenderInstruction)
        requires
            old(self).well_formed(),
            instructions.valid(),
        ensures
            final(self).well_formed(),
            instructions.models.len() == 0 ==> *final(self) == *old(self),
            instructions.models.len() > 0 ==> {
                &&& final(self).draw_commands@.len() == instructions.models.len()
                &&& final(self).instance_data@.len() == instructions.models.len()
                &&& final(self).instance_indices@.len() == instructions.models.len()
                &&& forall|j: int|
                    0 <= j < instructions.models.len() ==> {
                        &&& final(self).draw_commands@[j] == spec_command_of(
                            #[trigger] instructions.models@[j],
                            j,
                        )
                        &&& final(self).instance_data@[j] == (InstanceData {
                            model_matrix_ref: instructions.models@[j].model_matrix_ref,
                        })
                    }
            },
            commands_match(final(self).draw_commands@, instructions.models@) || (
            instructions.models.len() == 0 && *final(self) == *old(self)),
            final(self).multi_draw_indirect_support == old(self).multi_draw_indirect_support,
            final(self).instance_data_buffer == old(self).instance_data_buffer,
            final(self).instance_index_vertex_buffer == old(self).instance_index_vertex_buffer,
            final(self).command_buffer == old(self).command_buffer,
            final(self).bind_group_layout == old(self).bind_group_layout,
            final(self).bind_group == old(self).bind_group,
            final(self).pipeline == old(self).pipeline,
            final(self).wireframe_pipeline == old(self).wireframe_pipeline,
    {
        let draw_count = instructions.models.len();
        if draw_count == 0 {
            return ;
        }

        let mut instance_data: Vec<InstanceData> = Vec::new();
        let mut instance_indices: Vec<u32> = Vec::new();
        let mut draw_commands: Vec<DrawIndirectArgs> = Vec::new();

        let mut i: usize = 0;
        while i < draw_count
            invariant
                draw_count == instructions.models.len(),
                instructions.valid(),
                i <= draw_count,
                instance_data@.len() == i,
                instance_indices@.len() == i,
                draw_commands@.len() == i,
                forall|j: int|
                    0 <= j < i ==> {
                        &&& draw_commands@[j] == spec_command_of(
                            #[trigger] instructions.models@[j],
                            j,
                        )
                        &&& instance_data@[j] == (InstanceData {
                            model_matrix_ref: instructions.models@[j].model_matrix_ref,
                        })
                        &&& instance_indices@[j] == j
                    },
            decreases draw_count - i,
        {
            let instruction = instructions.models[i];
            instance_data.push(InstanceData { model_matrix_ref: instruction.model_matrix_ref });
            instance_indices.push(i as u32);
            draw_commands.push(
                DrawIndirectArgs {
                    vertex_count: instruction.vertex_count as u32,
                    instance_count: 1,
                    first_vertex: instruction.vertex_offset as u32,
                    first_instance: i as u32,
                },
            );
            i += 1;
        }

        proof {
            assert forall|j: int| 0 <= j < draw_commands@.len() implies {
                &&& (#[trigger] draw_commands@[j]).instance_count == 1
                &&& draw_commands@[j].first_instance == j
                &&& instance_indices@[j] == j
            } by {
                assert(draw_commands@[j] == spec_command_of(instructions.models@[j], j));
            }
        }

        self.instance_data = instance_data;
        self.instance_indices = instance_indices;
        self.draw_commands = draw_commands;
    }

    /// Uploads the staged lists into their GPU buffers; rebuilds the
    /// bind group only when the instance-data buffer had to grow.
    /// Returns whether it was rebuilt.
    pub fn upload(&mut self, device: &mut GraphicsDevice) -> (rebuilt: bool)
        requires
            old(self).well_formed(),
            old(device).ids_available(),
        ensures
            final(self).well_formed(),
            ({
                let staged = old(self).instance_data.len() as u64;
                &&& rebuilt == (staged * INSTANCE_DATA_SIZE
                    > old(self).instance_data_buffer.capacity)
                &&& final(self).instance_data_buffer.count == staged
                &&& final(self).instance_index_vertex_buffer.count == staged
                &&& final(self).command_buffer.count == staged
                &&& final(self).instance_data_buffer.capacity >= staged * INSTANCE_DATA_SIZE
                &&& !rebuilt ==> {
                    &&& final(self).instance_data_buffer.id == old(self).instance_data_buffer.id
                    &&& final(self).instance_data_buffer.capacity == old(
                        self,
                    ).instance_data_buffer.capacity
                    &&& final(self).bind_group == old(self).bind_group
                }
            }),
            final(self).multi_draw_indirect_support == old(self).multi_draw_indirect_support,
            final(self).bind_group_layout == old(self).bind_group_layout,
            final(self).pipeline == old(self).pipeline,
            final(self).wireframe_pipeline == old(self).wireframe_pipeline,
            final(self).instance_data == old(self).instance_data,
            final(self).instance_indices == old(self).instance_indices,
            final(self).draw_commands == old(self).draw_commands,
            old(device).next_id <= final(device).next_id,
            final(device).next_id <= old(device).next_id + 16,
            final(device).same_limits(*old(device)),
    {
        let staged = self.instance_data.len();
        proof {
            assert(staged * INSTANCE_DATA_SIZE <= u32::MAX * INSTANCE_DATA_SIZE)
                by (nonlinear_arith)
                requires
                    staged <= u32::MAX,
            ;
            assert(staged * INSTANCE_INDEX_SIZE <= u32::MAX * INSTANCE_INDEX_SIZE)
                by (nonlinear_arith)
                requires
                    staged <= u32::MAX,
            ;
            assert(staged * DRAW_INDIRECT_ARGS_SIZE <= u32::MAX * DRAW_INDIRECT_ARGS_SIZE)
                by (nonlinear_arith)
                requires
                    staged <= u32::MAX,
            ;
        }
        let recreated = self.instance_data_buffer.write(device, staged as u64);
        let _ = self.instance_index_vertex_buffer.write(device, staged as u64);
        let _ = self.command_buffer.write(device, staged as u64);

        if recreated {
            self.bind_group = Self::create_bind_group(
                device,
                &self.bind_group_layout,
                &self.instance_data_buffer,
            );
        }
        recreated
    }
}

impl ForwardModelDrawer {
    /// Encodes the model pass: binds the solid pipeline (or the
    /// wireframe one when requested), the per-instance data, and then
    /// submits every batch — as one multi-draw over the staged
    /// indirect commands when the device supports it, as one direct
    /// draw per instruction otherwise.  Batches with no instructions
    /// are skipped entirely.
    ///
    /// Whichever path is taken, the submitted (vertex range, instance
    /// index) sequence equals the per-instruction expansion of the
    /// batches, so the two paths render identical output.
    pub fn draw(&self, draw_data: &ModelBatchDrawData) -> (ops: Vec<DrawOp>)
        requires
            self.well_formed(),
            commands_match(self.draw_commands@, draw_data.instructions@),
            batches_within(draw_data.batches@, draw_data.instructions@.len() as int),
        ensures
            draw_data.batches@.len() == 0 ==> ops@.len() == 0,
            draw_data.batches@.len() > 0 ==> {
                &&& ops@.len() >= 2
                &&& ops@[0] == (DrawOp::SetPipeline {
                    pipeline_id: if draw_data.show_wireframe {
                        self.wireframe_pipeline.id
                    } else {
                        self.pipeline.id
                    },
                })
                &&& ops@[1] == (DrawOp::SetBindGroup { slot: 2, bind_group_id: self.bind_group.id })
            },
            spec_submitted_draws(ops@, self.draw_commands@) == spec_direct_draws(
                draw_data.instructions@,
                draw_data.batches@,
            ),
    {
        let mut ops: Vec<DrawOp> = Vec::new();

        if draw_data.batches.len() == 0 {
            return ops;
        }

        let pipeline_id = if draw_data.show_wireframe {
            self.wireframe_pipeline.id
        } else {
            self.pipeline.id
        };
        proof {
            lemma_submitted_draws_push(ops@, DrawOp::SetPipeline { pipeline_id }, self.draw_commands@);
        }
        ops.push(DrawOp::SetPipeline { pipeline_id });
        proof {
            lemma_submitted_draws_push(
                ops@,
                DrawOp::SetBindGroup { slot: 2, bind_group_id: self.bind_group.id },
                self.draw_commands@,
            );
        }
        ops.push(DrawOp::SetBindGroup { slot: 2, bind_group_id: self.bind_group.id });

        let batch_count = draw_data.batches.len();
        let mut b: usize = 0;
        while b < batch_count
            invariant
                self.well_formed(),
                commands_match(self.draw_commands@, draw_data.instructions@),
                batches_within(draw_data.batches@, draw_data.instructions@.len() as int),
                batch_count == draw_data.batches@.len(),
                b <= batch_count,
                ops@.len() >= 2,
                ops@[0] == (DrawOp::SetPipeline { pipeline_id }),
                pipeline_id == if draw_data.show_wireframe {
                    self.wireframe_pipeline.id
                } else {
                    self.pipeline.id
                },
                ops@[1] == (DrawOp::SetBindGroup { slot: 2, bind_group_id: self.bind_group.id }),
                spec_submitted_draws(ops@, self.draw_commands@) == spec_direct_draws(
                    draw_data.instructions@,
                    draw_data.batches@.take(b as int),
                ),
            decreases batch_count - b,
        {
            let batch = draw_data.batches[b];
            let ghost commands = self.draw_commands@;
            let ghost instructions = draw_data.instructions@;
            let ghost batches_prefix = draw_data.batches@.take(b as int);
            let ghost batches_next = draw_data.batches@.take(b as int + 1);
            proof {
                assert(batches_next.drop_last() =~= batches_prefix);
                assert(batches_next.last() == batch);
            }

            if batch.count == 0 {
                proof {
                    assert(spec_direct_batch_draws(instructions, batch) =~= Seq::<
                        SubmittedDraw,
                    >::empty());
                    assert(spec_direct_draws(instructions, batches_next) =~= spec_direct_draws(
                        instructions,
                        batches_prefix,
                    ));
                }
                b += 1;
                continue ;
            }

            proof {
                lemma_submitted_draws_push(
                    ops@,
                    DrawOp::SetBindGroup { slot: 3, bind_group_id: batch.texture_ref },
                    commands,
                );
            }
            ops.push(DrawOp::SetBindGroup { slot: 3, bind_group_id: batch.texture_ref });
            proof {
                lemma_submitted_draws_push(
                    ops@,
                    DrawOp::SetVertexBuffer { slot: 0, buffer_ref: batch.vertex_buffer_ref },
                    commands,
                );
            }
            ops.push(DrawOp::SetVertexBuffer { slot: 0, buffer_ref: batch.vertex_buffer_ref });
            proof {
                lemma_submitted_draws_push(
                    ops@,
                    DrawOp::SetVertexBuffer {
                        slot: 1,
                        buffer_ref: self.instance_index_vertex_buffer.id,
                    },
                    commands,
                );
            }
            ops.push(
                DrawOp::SetVertexBuffer { slot: 1, buffer_ref: self.instance_index_vertex_buffer.id },
            );

            if self.multi_draw_indirect_support {
                let op = DrawOp::MultiDrawIndirect {
                    first_command: batch.offset,
                    command_count: batch.count,
                };
                proof {
                    lemma_submitted_draws_push(ops@, op, commands);
                    assert(spec_op_draws(op, commands) =~= spec_direct_batch_draws(
                        instructions,
                        batch,
                    ));
                }
                ops.push(op);
            } else {
                let start = batch.offset;
                let mut j: usize = 0;
                while j < batch.count
                    invariant
                        commands_match(commands, instructions),
                        commands == self.draw_commands@,
                        instructions == draw_data.instructions@,
                        start == batch.offset,
                        batch.offset + batch.count <= instructions.len(),
                        j <= batch.count,
                        ops@.len() >= 2,
                        ops@[0] == (DrawOp::SetPipeline { pipeline_id }),
                        ops@[1] == (DrawOp::SetBindGroup {
                            slot: 2,
                            bind_group_id: self.bind_group.id,
                        }),
                        spec_submitted_draws(ops@, commands) == spec_direct_draws(
                            instructions,
                            batches_prefix,
                        ) + spec_direct_batch_draws(instructions, batch).take(j as int),
                    decreases batch.count - j,
                {
                    let instruction = draw_data.instructions[start + j];
                    let vertex_start = instruction.vertex_offset as u32;
                    let vertex_end = vertex_start + (instruction.vertex_count as u32);
                    let index = (start + j) as u32;
                    let op = DrawOp::Draw {
                        first_vertex: vertex_start,
                        vertex_end,
                        instance_index: index,
                    };
                    proof {
                        lemma_submitted_draws_push(ops@, op, commands);
                        assert(spec_direct_batch_draws(instructions, batch).take(j as int).push(
                            spec_direct_batch_draws(instructions, batch)[j as int],
                        ) =~= spec_direct_batch_draws(instructions, batch).take(j as int + 1));
                        assert(spec_submitted_draws(ops@.push(op), commands) =~= spec_direct_draws(
                            instructions,
                            batches_prefix,
                        ) + spec_direct_batch_draws(instructions, batch).take(j as int + 1));
                    }
                    ops.push(op);
                    j += 1;
                }
                proof {
                    assert(spec_direct_batch_draws(instructions, batch).take(
                        batch.count as int,
                    ) =~= spec_direct_batch_draws(instructions, batch));
                }
            }

            b += 1;
        }
        proof {
            assert(draw_data.batches@.take(batch_count as int) =~= draw_data.batches@);
        }
        ops
    }
}

/// Path equivalence of the forward drawer: for any instruction list
/// whose staged commands match it, the (vertex range, instance index)
/// sequence submitted through the multi-draw-indirect path equals the
/// one submitted through the per-instruction fallback, batch for batch
/// and draw for draw.
pub proof fn lemma_draw_path_equivalence(
    commands: Seq<DrawIndirectArgs>,
    instructions: Seq<ModelInstruction>,
    batches: Seq<ModelBatch>,
)
    requires
        commands_match(commands, instructions),
        batches_within(batches, instructions.len() as int),
    ensures
        spec_indirect_draws(commands, batches) == spec_direct_draws(instructions, batches),
    decreases batches.len(),
{
    if batches.len() == 0 {
    } else {
        let prefix = batches.drop_last();
        let batch = batches.last();
        assert(batches_within(prefix, instructions.len() as int)) by {
            assert(forall|b: int|
                0 <= b < prefix.len() ==> prefix[b] == #[trigger] batches[b]);
        }
        lemma_draw_path_equivalence(commands, instructions, prefix);
        assert(spec_indirect_batch_draws(commands, batch) =~= spec_direct_batch_draws(
            instructions,
            batch,
        ));
    }
}

} // verus!
