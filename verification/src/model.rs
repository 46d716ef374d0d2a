//! The model builder: accumulates parsed mesh geometry from OBJ sources,
//! then flattens it and uploads it as immutable vertex/index buffers tied to
//! the builder's queue, yielding a [`Model`].
//!
//! Indices are concatenated verbatim when several meshes are flattened: they
//! are not offset by the vertex count of earlier meshes, so multi-mesh
//! geometry must already share one index space.

use vstd::prelude::*;

use crate::handles::{PipelineHandle, QueueHandle};
use crate::mesh::{append_values, converted_mesh, Mesh, MeshView, Vertex};
use crate::obj::{obj_parse, parse_obj_bytes, raw_meshes_view, rejected_stream, scan_rejects_stream};

verus! {

/// Why a build cannot produce a model.
#[derive(Clone, Copy, Debug, PartialEq, Eq, Structural)]
pub enum ModelBuilderError {
    /// No source was ever attached successfully, or the last attached source
    /// failed to parse.
    MissingMeshes,
    /// The pipeline has no vertex shader stage bound.
    MissingVertexShader,
    /// The pipeline has no fragment shader stage bound.
    MissingFragmentShader,
}

/// An immutable, GPU-resident, vertex-usage buffer: the uploaded contents,
/// the queue the upload was enqueued on, and the vertex layout the contents
/// were laid out for.
#[derive(Clone, Debug)]
pub struct VertexBuffer {
    pub queue: QueueHandle,
    pub layout: u64,
    pub vertices: Vec<Vertex>,
}

/// Mathematical model of a `VertexBuffer`.
#[verifier::ext_equal]
pub ghost struct VertexBufferView {
    pub queue: QueueHandle,
    pub layout: u64,
    pub vertices: Seq<Vertex>,
}

impl View for VertexBuffer {
    type V = VertexBufferView;

    open spec fn view(&self) -> VertexBufferView {
        VertexBufferView { queue: self.queue, layout: self.layout, vertices: self.vertices@ }
    }
}

impl VertexBuffer {
    /// Models the synchronous enqueue of an immutable vertex buffer upload:
    /// the buffer carries exactly the given contents and stays tied to the
    /// uploading queue. The device-side transfer is the graphics layer's job.
    pub fn upload(queue: QueueHandle, layout: u64, vertices: Vec<Vertex>) -> (r: VertexBuffer)
        ensures
            r@ == (VertexBufferView { queue, layout, vertices: vertices@ }),
    {
        VertexBuffer { queue, layout, vertices }
    }
}

/// An immutable, GPU-resident, index-usage buffer.
#[derive(Clone, Debug)]
pub struct IndexBuffer {
    pub queue: QueueHandle,
    pub indices: Vec<u32>,
}

/// Mathematical model of an `IndexBuffer`.
#[verifier::ext_equal]
pub ghost struct IndexBufferView {
    pub queue: QueueHandle,
    pub indices: Seq<u32>,
}

impl View for IndexBuffer {
    type V = IndexBufferView;

    open spec fn view(&self) -> IndexBufferView {
        IndexBufferView { queue: self.queue, indices: self.indices@ }
    }
}

impl IndexBuffer {
    /// Models the synchronous enqueue of an immutable index buffer upload.
    pub fn upload(queue: QueueHandle, indices: Vec<u32>) -> (r: IndexBuffer)
        ensures
            r@ == (IndexBufferView { queue, indices: indices@ }),
    {
        IndexBuffer { queue, indices }
    }
}

/// The finalized, immutable resource bundle: the uploaded vertex buffer(s)
/// and index buffer, and the pipeline they were built against.
#[derive(Clone, Debug)]
pub struct Model {
    pub vertex_buffer: Vec<VertexBuffer>,
    pub index_buffer: IndexBuffer,
    pub pipeline: PipelineHandle,
}

/// Mathematical model of a `Model`.
#[verifier::ext_equal]
pub ghost struct ModelView {
    pub vertex_buffer: Seq<VertexBufferView>,
    pub index_buffer: IndexBufferView,
    pub pipeline: PipelineHandle,
}

impl View for Model {
    type V = ModelView;

    open spec fn view(&self) -> ModelView {
        ModelView {
            vertex_buffer: self.vertex_buffer@.map_values(|b: VertexBuffer| b@),
            index_buffer: self.index_buffer@,
            pipeline: self.pipeline,
        }
    }
}

/// Transient construction state: a queue and pipeline to build against, and
/// the meshes of the last successfully attached source, if any.
pub struct ModelBuilder {
    queue: QueueHandle,
    meshes: Option<Vec<Mesh<Vertex, u32>>>,
    pipeline: PipelineHandle,
}

/// Mathematical model of a `ModelBuilder`.
#[verifier::ext_equal]
pub ghost struct ModelBuilderView {
    pub queue: QueueHandle,
    pub meshes: Option<Seq<MeshView<Vertex, u32>>>,
    pub pipeline: PipelineHandle,
}

impl View for ModelBuilder {
    type V = ModelBuilderView;

    closed spec fn view(&self) -> ModelBuilderView {
        ModelBuilderView {
            queue: self.queue,
            meshes: match self.meshes {
                Option::None => None,
                Option::Some(ms) => Some(ms@.map_values(|m: Mesh<Vertex, u32>| m@)),
            },
            pipeline: self.pipeline,
        }
    }
}

/// The mesh state that attaching a parsed source leaves behind: `None` when
/// the parse failed or any sub-mesh lacks a normal per position component;
/// otherwise every sub-mesh converted, in document order.
pub open spec fn parsed_mesh_state(parse: Option<Seq<(Seq<u32>, Seq<u32>, Seq<u32>)>>) -> Option<
    Seq<MeshView<Vertex, u32>>,
> {
    match parse {
        None => None,
        Some(raws) => if forall|i: int|
            0 <= i < raws.len() ==> (#[trigger] raws[i]).0.len() == raws[i].1.len() {
            Some(Seq::new(raws.len(), |i: int| converted_mesh(raws[i].0, raws[i].1, raws[i].2)))
        } else {
            None
        },
    }
}

/// The builder state after attaching the given source bytes: queue and
/// pipeline kept, mesh state replaced by what the bytes parse to — or by
/// nothing when the stream is refused before the parser sees it (see
/// [`rejected_stream`]).
pub open spec fn with_obj_state(b: ModelBuilderView, bytes: Seq<u8>) -> ModelBuilderView {
    ModelBuilderView {
        queue: b.queue,
        meshes: if rejected_stream(bytes) {
            None
        } else {
            parsed_mesh_state(obj_parse(bytes))
        },
        pipeline: b.pipeline,
    }
}

/// Every mesh's vertices, concatenated in mesh order.
pub open spec fn flat_vertices(meshes: Seq<MeshView<Vertex, u32>>) -> Seq<Vertex>
    decreases meshes.len(),
{
    if meshes.len() == 0 {
        Seq::empty()
    } else {
        flat_vertices(meshes.drop_last()) + meshes.last().vertices
    }
}

/// Every mesh's indices, concatenated verbatim in mesh order.
pub open spec fn flat_indices(meshes: Seq<MeshView<Vertex, u32>>) -> Seq<u32>
    decreases meshes.len(),
{
    if meshes.len() == 0 {
        Seq::empty()
    } else {
        flat_indices(meshes.drop_last()) + meshes.last().indices
    }
}

/// The model that a successful build of these meshes produces: one vertex
/// buffer and one index buffer holding the flattened geometry, both tied to
/// the builder's queue, bundled with the builder's pipeline.
pub open spec fn built_model(b: ModelBuilderView, meshes: Seq<MeshView<Vertex, u32>>) -> ModelView {
    ModelView {
        vertex_buffer: seq![
            VertexBufferView {
                queue: b.queue,
                layout: b.pipeline.vertex_layout,
                vertices: flat_vertices(meshes),
            },
        ],
        index_buffer: IndexBufferView { queue: b.queue, indices: flat_indices(meshes) },
        pipeline: b.pipeline,
    }
}

impl ModelBuilder {
    /// A fresh builder against the given queue and pipeline, with no meshes
    /// attached. Touches no device resource.
    pub fn new(queue: QueueHandle, pipeline: PipelineHandle) -> (r: ModelBuilder)
        ensures
            r@.queue == queue,
            r@.pipeline == pipeline,
            r@.meshes is None,
    {
        ModelBuilder { queue, pipeline, meshes: None }
    }

    /// Attaches the geometry of one OBJ byte stream, replacing — not
    /// appending to — whatever an earlier attachment left behind. A parse
    /// failure, a refused stream (an element statement with a relative or
    /// overlong index reference, see [`rejected_stream`]), or a sub-mesh
    /// without a normal per position component, leaves the builder with no
    /// meshes.
    pub fn with_obj(self, obj: &[u8]) -> (r: ModelBuilder)
        ensures
            r@ == with_obj_state(self@, obj@),
    {
        if scan_rejects_stream(obj) {
            return ModelBuilder { queue: self.queue, pipeline: self.pipeline, meshes: None };
        }
        let parsed = parse_obj_bytes(obj);
        match parsed {
            None => ModelBuilder { queue: self.queue, pipeline: self.pipeline, meshes: None },
            Some(raws) => {
                let ghost rv = raw_meshes_view(raws@);
                let mut meshes: Vec<Mesh<Vertex, u32>> = Vec::new();
                let mut i: usize = 0;
                while i < raws.len()
                    invariant
                        i <= raws@.len(),
                        rv == raw_meshes_view(raws@),
                        obj_parse(obj@) == Some(rv),
                        meshes@.len() == i,
                        forall|k: int|
                            0 <= k < i ==> (#[trigger] rv[k]).0.len() == rv[k].1.len(),
                        forall|k: int|
                            0 <= k < i ==> (#[trigger] meshes@[k])@ == converted_mesh(
                                rv[k].0,
                                rv[k].1,
                                rv[k].2,
                            ),
                    decreases raws@.len() - i,
                {
                    match Mesh::try_from_raw(&raws[i]) {
                        Some(m) => {
                            meshes.push(m);
                        },
                        None => {
                            proof {
                                assert(rv[i as int].0 == raws@[i as int].positions@);
                                assert(!(forall|k: int|
                                    0 <= k < rv.len() ==> (#[trigger] rv[k]).0.len()
                                        == rv[k].1.len()));
                            }
                            return ModelBuilder {
                                queue: self.queue,
                                pipeline: self.pipeline,
                                meshes: None,
                            };
                        },
                    }
                    i = i + 1;
                }
                let r = ModelBuilder {
                    queue: self.queue,
                    pipeline: self.pipeline,
                    meshes: Some(meshes),
                };
                proof {
                    assert(meshes@.map_values(|m: Mesh<Vertex, u32>| m@) =~= Seq::new(
                        rv.len(),
                        |i: int| converted_mesh(rv[i].0, rv[i].1, rv[i].2),
                    ));
                    assert(r@ =~= with_obj_state(self@, obj@));
                }
                r
            },
        }
    }

    /// Attaches a source that may have failed to be read at all: `None`
    /// (unreadable source) leaves the builder exactly as it was — no error,
    /// no partial state — while `Some` bytes are attached as by
    /// [`ModelBuilder::with_obj`]. The caller reads the path or stream and
    /// hands the bytes in.
    pub fn with_obj_source(self, source: Option<&[u8]>) -> (r: ModelBuilder)
        ensures
            source matches Some(bytes) ==> r@ == with_obj_state(self@, bytes@),
            source is None ==> r@ == self@,
    {
        match source {
            Some(bytes) => self.with_obj(bytes),
            None => self,
        }
    }

    /// Finalizes the builder. Fails with `MissingMeshes` when no source is
    /// attached, and validates that the pipeline has its vertex and fragment
    /// stages bound before anything is uploaded. Otherwise flattens all
    /// meshes — vertices and indices each concatenated in mesh order — and
    /// uploads them as one immutable vertex buffer and one immutable index
    /// buffer on the builder's queue.
    pub fn build(self) -> (r: Result<Model, ModelBuilderError>)
        ensures
            (match self@.meshes {
                None => r == Err::<Model, ModelBuilderError>(ModelBuilderError::MissingMeshes),
                Some(ms) => if !self@.pipeline.has_vertex_shader {
                    r == Err::<Model, ModelBuilderError>(ModelBuilderError::MissingVertexShader)
                } else if !self@.pipeline.has_fragment_shader {
                    r == Err::<Model, ModelBuilderError>(ModelBuilderError::MissingFragmentShader)
                } else {
                    r matches Ok(model) && model@ == built_model(self@, ms)
                },
            }),
    {
        let ghost bv = self@;
        let meshes = match self.meshes {
            None => {
                return Err(ModelBuilderError::MissingMeshes);
            },
            Some(ms) => ms,
        };
        if !self.pipeline.has_vertex_shader {
            return Err(ModelBuilderError::MissingVertexShader);
        }
        if !self.pipeline.has_fragment_shader {
            return Err(ModelBuilderError::MissingFragmentShader);
        }
        let ghost mviews = meshes@.map_values(|m: Mesh<Vertex, u32>| m@);
        let mut vertices: Vec<Vertex> = Vec::new();
        let mut indices: Vec<u32> = Vec::new();
        let mut i: usize = 0;
        while i < meshes.len()
            invariant
                i <= meshes@.len(),
                mviews == meshes@.map_values(|m: Mesh<Vertex, u32>| m@),
                vertices@ == flat_vertices(mviews.take(i as int)),
                indices@ == flat_indices(mviews.take(i as int)),
            decreases meshes@.len() - i,
        {
            let mesh = &meshes[i];
            append_values(&mut vertices, &mesh.vertices);
            append_values(&mut indices, &mesh.indices);
            proof {
                assert(mviews.take(i as int + 1).drop_last() =~= mviews.take(i as int));
                assert(mviews.take(i as int + 1).last() == mviews[i as int]);
            }
            i = i + 1;
        }
        proof {
            assert(mviews.take(meshes@.len() as int) =~= mviews);
        }
        let vertex_buffer_one = VertexBuffer::upload(
            self.queue,
            self.pipeline.vertex_layout,
            vertices,
        );
        let index_buffer = IndexBuffer::upload(self.queue, indices);
        let mut vertex_buffer: Vec<VertexBuffer> = Vec::new();
        vertex_buffer.push(vertex_buffer_one);
        let model = Model { vertex_buffer, index_buffer, pipeline: self.pipeline };
        proof {
            assert(model@ =~= built_model(bv, mviews));
        }
        Ok(model)
    }
}

/// Attaching a source replaces the builder's mesh state outright: after two
/// attachments in a row, the builder is in the state the second attachment
/// alone would have left it in.
pub proof fn lemma_with_obj_replaces(b: ModelBuilderView, first: Seq<u8>, second: Seq<u8>)
    ensures
        with_obj_state(with_obj_state(b, first), second) == with_obj_state(b, second),
{
}

/// A source that fails to parse leaves the builder with no meshes at all —
/// never with partial geometry — so a following build fails with
/// `MissingMeshes`.
pub proof fn lemma_failed_parse_leaves_no_meshes(b: ModelBuilderView, bytes: Seq<u8>)
    requires
        obj_parse(bytes) is None,
    ensures
        with_obj_state(b, bytes).meshes is None,
{
}

/// Building a single mesh uploads exactly that mesh's vertices and exactly
/// its indices, unchanged.
pub proof fn lemma_flatten_single_mesh(m: MeshView<Vertex, u32>)
    ensures
        flat_vertices(seq![m]) == m.vertices,
        flat_indices(seq![m]) == m.indices,
{
    let s = seq![m];
    assert(s.len() == 1);
    assert(s.last() == m);
    assert(s.drop_last() =~= Seq::<MeshView<Vertex, u32>>::empty());
    assert(flat_vertices(s.drop_last()) =~= Seq::<Vertex>::empty());
    assert(flat_indices(s.drop_last()) =~= Seq::<u32>::empty());
    assert(flat_vertices(s) =~= m.vertices);
    assert(flat_indices(s) =~= m.indices);
}

} // verus!
