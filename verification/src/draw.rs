//! Recording indexed draw calls.
//!
//! A [`CommandBufferBuilder`] models a command buffer under construction as
//! the sequence of draw commands recorded so far. Drawing a finalized
//! [`Model`] is a pure append: it binds the model's pipeline, the supplied
//! dynamic state, the model's vertex and index buffers and the supplied
//! resource bindings into one [`DrawCommand`], and never touches the model
//! itself. Submission and execution are the graphics layer's job.

use vstd::prelude::*;

use crate::handles::{DescriptorSets, DescriptorSetsView, DynamicState, PipelineHandle};
use crate::mesh::{copy_values, MeshView, Vertex};
use crate::model::{
    built_model, IndexBuffer, IndexBufferView, Model, ModelBuilderView, VertexBuffer,
    VertexBufferView,
};

verus! {

/// Why a draw call cannot be recorded.
#[derive(Clone, Copy, Debug, PartialEq, Eq, Structural)]
pub enum DrawError {
    /// Some vertex buffer was not laid out for the vertex layout the
    /// pipeline consumes.
    IncompatibleVertexSource,
    /// The resource bindings were declared against a different binding
    /// layout than the pipeline expects.
    IncompatibleBindings,
}

/// One recorded indexed draw instruction: everything the draw binds. The
/// draw count is implied by the index buffer's length.
#[derive(Clone, Debug)]
pub struct DrawCommand {
    pub pipeline: PipelineHandle,
    pub dynamic_state: DynamicState,
    pub vertex_buffers: Vec<VertexBuffer>,
    pub index_buffer: IndexBuffer,
    pub sets: DescriptorSets,
}

/// Mathematical model of a `DrawCommand`.
#[verifier::ext_equal]
pub ghost struct DrawCommandView {
    pub pipeline: PipelineHandle,
    pub dynamic_state: DynamicState,
    pub vertex_buffers: Seq<VertexBufferView>,
    pub index_buffer: IndexBufferView,
    pub sets: DescriptorSetsView,
}

impl View for DrawCommand {
    type V = DrawCommandView;

    open spec fn view(&self) -> DrawCommandView {
        DrawCommandView {
            pipeline: self.pipeline,
            dynamic_state: self.dynamic_state,
            vertex_buffers: self.vertex_buffers@.map_values(|b: VertexBuffer| b@),
            index_buffer: self.index_buffer@,
            sets: self.sets@,
        }
    }
}

/// A command buffer under construction: the draw commands recorded so far,
/// in recording order.
#[derive(Debug)]
pub struct CommandBufferBuilder {
    pub commands: Vec<DrawCommand>,
}

impl View for CommandBufferBuilder {
    type V = Seq<DrawCommandView>;

    open spec fn view(&self) -> Seq<DrawCommandView> {
        self.commands@.map_values(|c: DrawCommand| c@)
    }
}

impl CommandBufferBuilder {
    /// A builder with nothing recorded.
    pub fn new() -> (r: CommandBufferBuilder)
        ensures
            r@ == Seq::<DrawCommandView>::empty(),
    {
        let r = CommandBufferBuilder { commands: Vec::new() };
        proof {
            assert(r@ =~= Seq::<DrawCommandView>::empty());
        }
        r
    }
}

/// Whether every vertex buffer is laid out for the vertex layout the
/// pipeline consumes.
pub open spec fn vertex_source_ok(pipeline: PipelineHandle, buffers: Seq<VertexBufferView>) -> bool {
    forall|i: int| 0 <= i < buffers.len() ==> (#[trigger] buffers[i]).layout == pipeline.vertex_layout
}

/// Whether the resource bindings are declared against the binding layout the
/// pipeline expects.
pub open spec fn bindings_ok(pipeline: PipelineHandle, sets: DescriptorSetsView) -> bool {
    sets.layout == pipeline.binding_layout
}

/// The command that a draw of these resources records.
pub open spec fn drawn_command(
    pipeline: PipelineHandle,
    vertex_buffers: Seq<VertexBufferView>,
    index_buffer: IndexBufferView,
    dynamic_state: DynamicState,
    sets: DescriptorSetsView,
) -> DrawCommandView {
    DrawCommandView { pipeline, dynamic_state, vertex_buffers, index_buffer, sets }
}

/// Something that can record one indexed draw of itself into a command
/// buffer under construction.
pub trait Drawable {
    /// The pipeline the draw binds.
    spec fn pipeline_spec(&self) -> PipelineHandle;

    /// The vertex buffers the draw binds.
    spec fn vertex_buffers_spec(&self) -> Seq<VertexBufferView>;

    /// The index buffer the draw binds.
    spec fn index_buffer_spec(&self) -> IndexBufferView;

    /// Records one indexed draw into `cmd_buf`: a pure append of one
    /// command, or a draw-construction error when the resources do not fit
    /// the pipeline. Never mutates the drawable.
    fn draw(&self, cmd_buf: CommandBufferBuilder, dynamic_state: &DynamicState, sets: DescriptorSets) -> (r:
        Result<CommandBufferBuilder, DrawError>)
        ensures
            !vertex_source_ok(self.pipeline_spec(), self.vertex_buffers_spec()) ==> r == Err::<
                CommandBufferBuilder,
                DrawError,
            >(DrawError::IncompatibleVertexSource),
            vertex_source_ok(self.pipeline_spec(), self.vertex_buffers_spec()) && !bindings_ok(
                self.pipeline_spec(),
                sets@,
            ) ==> r == Err::<CommandBufferBuilder, DrawError>(DrawError::IncompatibleBindings),
            vertex_source_ok(self.pipeline_spec(), self.vertex_buffers_spec()) && bindings_ok(
                self.pipeline_spec(),
                sets@,
            ) ==> (r matches Ok(cb) && cb@ == cmd_buf@.push(
                drawn_command(
                    self.pipeline_spec(),
                    self.vertex_buffers_spec(),
                    self.index_buffer_spec(),
                    *dynamic_state,
                    sets@,
                ),
            )),
    ;
}

/// Copies a vector of vertex buffers; each copy carries the same queue,
/// layout and contents as the buffer it was copied from.
fn copy_vertex_buffers(src: &Vec<VertexBuffer>) -> (r: Vec<VertexBuffer>)
    ensures
        r@.map_values(|b: VertexBuffer| b@) == src@.map_values(|b: VertexBuffer| b@),
{
    let mut r: Vec<VertexBuffer> = Vec::new();
    let mut i: usize = 0;
    while i < src.len()
        invariant
            i <= src@.len(),
            r@.len() == i,
            forall|k: int| 0 <= k < i ==> (#[trigger] r@[k])@ == src@[k]@,
        decreases src@.len() - i,
    {
        let b = &src[i];
        let copy = VertexBuffer {
            queue: b.queue,
            layout: b.layout,
            vertices: copy_values(&b.vertices),
        };
        proof {
            assert(copy@ =~= src@[i as int]@);
        }
        r.push(copy);
        i = i + 1;
    }
    proof {
        assert(r@.map_values(|b: VertexBuffer| b@) =~= src@.map_values(|b: VertexBuffer| b@));
    }
    r
}

impl Drawable for Model {
    open spec fn pipeline_spec(&self) -> PipelineHandle {
        self.pipeline
    }

    open spec fn vertex_buffers_spec(&self) -> Seq<VertexBufferView> {
        self.vertex_buffer@.map_values(|b: VertexBuffer| b@)
    }

    open spec fn index_buffer_spec(&self) -> IndexBufferView {
        self.index_buffer@
    }

    fn draw(&self, cmd_buf: CommandBufferBuilder, dynamic_state: &DynamicState, sets: DescriptorSets) -> (r:
        Result<CommandBufferBuilder, DrawError>) {
        let ghost pre = cmd_buf@;
        let mut i: usize = 0;
        while i < self.vertex_buffer.len()
            invariant
                i <= self.vertex_buffer@.len(),
                forall|k: int|
                    0 <= k < i ==> (#[trigger] self.vertex_buffer@[k])@.layout
                        == self.pipeline.vertex_layout,
            decreases self.vertex_buffer@.len() - i,
        {
            if self.vertex_buffer[i].layout != self.pipeline.vertex_layout {
                proof {
                    assert(self.vertex_buffers_spec()[i as int].layout
                        != self.pipeline.vertex_layout);
                }
                return Err(DrawError::IncompatibleVertexSource);
            }
            i = i + 1;
        }
        if sets.layout != self.pipeline.binding_layout {
            return Err(DrawError::IncompatibleBindings);
        }
        let command = DrawCommand {
            pipeline: self.pipeline,
            dynamic_state: *dynamic_state,
            vertex_buffers: copy_vertex_buffers(&self.vertex_buffer),
            index_buffer: IndexBuffer {
                queue: self.index_buffer.queue,
                indices: copy_values(&self.index_buffer.indices),
            },
            sets,
        };
        let mut recorded = cmd_buf;
        proof {
            assert(command@ =~= drawn_command(
                self.pipeline_spec(),
                self.vertex_buffers_spec(),
                self.index_buffer_spec(),
                *dynamic_state,
                sets@,
            ));
        }
        recorded.commands.push(command);
        proof {
            assert(recorded@ =~= pre.push(
                drawn_command(
                    self.pipeline_spec(),
                    self.vertex_buffers_spec(),
                    self.index_buffer_spec(),
                    *dynamic_state,
                    sets@,
                ),
            ));
        }
        Ok(recorded)
    }
}

/// Something that draws drawables into itself — the command-buffer side of
/// [`Drawable`].
pub trait RenderDrawable: Sized {
    /// The draw commands recorded so far.
    spec fn commands_spec(&self) -> Seq<DrawCommandView>;

    /// Records one indexed draw of `drawable`, consuming and returning the
    /// recorder.
    fn draw_drawable<T: Drawable>(
        self,
        drawable: &T,
        dynamic_state: &DynamicState,
        sets: DescriptorSets,
    ) -> (r: Result<Self, DrawError>)
        ensures
            !vertex_source_ok(drawable.pipeline_spec(), drawable.vertex_buffers_spec()) ==> r
                == Err::<Self, DrawError>(DrawError::IncompatibleVertexSource),
            vertex_source_ok(drawable.pipeline_spec(), drawable.vertex_buffers_spec())
                && !bindings_ok(drawable.pipeline_spec(), sets@) ==> r == Err::<Self, DrawError>(
                DrawError::IncompatibleBindings,
            ),
            vertex_source_ok(drawable.pipeline_spec(), drawable.vertex_buffers_spec())
                && bindings_ok(drawable.pipeline_spec(), sets@) ==> (r matches Ok(cb)
                && cb.commands_spec() == self.commands_spec().push(
                drawn_command(
                    drawable.pipeline_spec(),
                    drawable.vertex_buffers_spec(),
                    drawable.index_buffer_spec(),
                    *dynamic_state,
                    sets@,
                ),
            )),
    ;
}

impl RenderDrawable for CommandBufferBuilder {
    open spec fn commands_spec(&self) -> Seq<DrawCommandView> {
        self@
    }

    fn draw_drawable<T: Drawable>(
        self,
        drawable: &T,
        dynamic_state: &DynamicState,
        sets: DescriptorSets,
    ) -> (r: Result<Self, DrawError>) {
        drawable.draw(self, dynamic_state, sets)
    }
}

/// A model that a build produced always passes the draw-time vertex-source
/// check: its vertex buffers were laid out for the very pipeline it bundles,
/// so a draw of it succeeds exactly when the supplied resource bindings
/// match the pipeline's binding layout.
pub proof fn lemma_built_model_vertex_source_ok(
    b: ModelBuilderView,
    meshes: Seq<MeshView<Vertex, u32>>,
)
    ensures
        vertex_source_ok(built_model(b, meshes).pipeline, built_model(b, meshes).vertex_buffer),
{
    let model = built_model(b, meshes);
    assert forall|i: int| 0 <= i < model.vertex_buffer.len() implies (#[trigger] model.vertex_buffer[i]).layout
        == model.pipeline.vertex_layout by {
        assert(model.vertex_buffer[i] == model.vertex_buffer[0]);
    }
}

/// Draw recordings on one set of resources are independent: two draws that
/// differ only in their resource bindings record commands with the same
/// pipeline, dynamic state, vertex buffers and index buffer, and differ
/// exactly where the bindings differ.
pub proof fn lemma_draw_recordings_independent(
    pipeline: PipelineHandle,
    vertex_buffers: Seq<VertexBufferView>,
    index_buffer: IndexBufferView,
    dynamic_state: DynamicState,
    sets1: DescriptorSetsView,
    sets2: DescriptorSetsView,
)
    ensures
        drawn_command(pipeline, vertex_buffers, index_buffer, dynamic_state, sets1).pipeline
            == drawn_command(pipeline, vertex_buffers, index_buffer, dynamic_state, sets2).pipeline,
        drawn_command(pipeline, vertex_buffers, index_buffer, dynamic_state, sets1).vertex_buffers
            == drawn_command(
            pipeline,
            vertex_buffers,
            index_buffer,
            dynamic_state,
            sets2,
        ).vertex_buffers,
        drawn_command(pipeline, vertex_buffers, index_buffer, dynamic_state, sets1).index_buffer
            == drawn_command(
            pipeline,
            vertex_buffers,
            index_buffer,
            dynamic_state,
            sets2,
        ).index_buffer,
        drawn_command(pipeline, vertex_buffers, index_buffer, dynamic_state, sets1).dynamic_state
            == drawn_command(
            pipeline,
            vertex_buffers,
            index_buffer,
            dynamic_state,
            sets2,
        ).dynamic_state,
        drawn_command(pipeline, vertex_buffers, index_buffer, dynamic_state, sets1).sets == sets1,
        drawn_command(pipeline, vertex_buffers, index_buffer, dynamic_state, sets2).sets == sets2,
        sets1 != sets2 ==> drawn_command(
            pipeline,
            vertex_buffers,
            index_buffer,
            dynamic_state,
            sets1,
        ).sets != drawn_command(pipeline, vertex_buffers, index_buffer, dynamic_state, sets2).sets,
{
}

} // verus!
