//! Mesh-to-GPU-buffer adapter: converts parsed OBJ geometry into flattened
//! vertex/index buffers bound to a rendering pipeline, and records indexed
//! draw calls for the result.
//!
//! The graphics layer's own objects — device, queue, pipeline, command
//! buffer — are out of scope here and appear only as plain-value handles
//! (see [`handles`]); the layer that owns the real device objects converts
//! between them and these handles at the boundary.

use vstd::prelude::*;

pub mod draw;
pub mod handles;
pub mod mesh;
pub mod model;
pub mod obj;

use crate::handles::{PipelineHandle, QueueHandle};
use crate::model::ModelBuilder;

verus! {

/// Top-level facade under construction: holds the graphics context's queue
/// until the instance is finalized.
pub struct FrozenGameBuilder {
    pub graphics_queue: QueueHandle,
}

impl FrozenGameBuilder {
    /// A facade builder over the given graphics context's queue.
    pub fn new(graphics_queue: QueueHandle) -> (r: FrozenGameBuilder)
        ensures
            r.graphics_queue == graphics_queue,
    {
        FrozenGameBuilder { graphics_queue }
    }

    /// Finalizes the facade into a shareable instance.
    pub fn build(self) -> (r: FrozenGameInstance)
        ensures
            r.graphics_queue == self.graphics_queue,
    {
        FrozenGameInstance { graphics_queue: self.graphics_queue }
    }
}

/// The finalized facade: merely forwards its graphics queue into model
/// builders.
pub struct FrozenGameInstance {
    pub graphics_queue: QueueHandle,
}

impl FrozenGameInstance {
    /// Starts building a model against this instance's graphics queue and
    /// the given pipeline. No meshes are attached yet.
    pub fn build_model(&self, pipeline: PipelineHandle) -> (r: ModelBuilder)
        ensures
            r@.queue == self.graphics_queue,
            r@.pipeline == pipeline,
            r@.meshes is None,
    {
        ModelBuilder::new(self.graphics_queue, pipeline)
    }
}

} // verus!
